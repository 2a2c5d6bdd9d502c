//! What an unordered collection holds after each item of a sequence was
//! converted and inserted: an image of every item, and nothing else.
use vstd::prelude::*;

verus! {

/// Whether `out` holds something that `item` is related to.
pub open spec fn has_image<A, B>(item: A, out: Set<B>, rel: spec_fn(A, B) -> bool) -> bool {
    exists|b: B| out.contains(b) && #[trigger] rel(item, b)
}

/// Whether one of the first `n` items is related to `b`.
pub open spec fn has_source<A, B>(items: Seq<A>, n: int, b: B, rel: spec_fn(A, B) -> bool) -> bool {
    exists|i: int| 0 <= i < n && #[trigger] rel(items[i], b)
}

/// Whether `out` holds, for each of the first `n` items, something that the
/// item is related to, and nothing that none of them is related to.
#[verifier::opaque]
pub open spec fn images<A, B>(items: Seq<A>, n: int, out: Set<B>, rel: spec_fn(A, B) -> bool) -> bool {
    &&& forall|i: int| 0 <= i < n ==> has_image(#[trigger] items[i], out, rel)
    &&& forall|b: B| #[trigger] out.contains(b) ==> has_source(items, n, b, rel)
}

/// Nothing inserted yet: the empty set holds the images of no items.
pub proof fn lemma_images_start<A, B>(items: Seq<A>, rel: spec_fn(A, B) -> bool)
    ensures
        images(items, 0, Set::<B>::empty(), rel),
{
    reveal(images);
}

/// Inserting an image of the next item.
pub proof fn lemma_images_step<A, B>(
    items: Seq<A>,
    n: int,
    out: Set<B>,
    rel: spec_fn(A, B) -> bool,
    added: B,
)
    requires
        0 <= n < items.len(),
        images(items, n, out, rel),
        rel(items[n], added),
    ensures
        images(items, n + 1, out.insert(added), rel),
{
    reveal(images);
    let next = out.insert(added);
    assert forall|i: int| 0 <= i < n + 1 implies has_image(#[trigger] items[i], next, rel) by {
        if i < n {
            assert(has_image(items[i], out, rel));
            let b = choose|b: B| out.contains(b) && #[trigger] rel(items[i], b);
            assert(next.contains(b) && rel(items[i], b));
        } else {
            assert(next.contains(added) && rel(items[i], added));
        }
    }
    assert forall|b: B| #[trigger] next.contains(b) implies has_source(items, n + 1, b, rel) by {
        if b == added {
            assert(0 <= n < n + 1 && rel(items[n], b));
        } else {
            assert(out.contains(b));
            assert(has_source(items, n, b, rel));
            let i = choose|i: int| 0 <= i < n && #[trigger] rel(items[i], b);
            assert(0 <= i < n + 1 && rel(items[i], b));
        }
    }
}

/// Every item has an image in `out`.
pub proof fn lemma_images_of_item<A, B>(
    items: Seq<A>,
    out: Set<B>,
    rel: spec_fn(A, B) -> bool,
    i: int,
) -> (b: B)
    requires
        images(items, items.len() as int, out, rel),
        0 <= i < items.len(),
    ensures
        out.contains(b),
        rel(items[i], b),
{
    reveal(images);
    assert(has_image(items[i], out, rel));
    choose|b: B| out.contains(b) && #[trigger] rel(items[i], b)
}

/// Everything in `out` is the image of some item.
pub proof fn lemma_images_from_item<A, B>(
    items: Seq<A>,
    out: Set<B>,
    rel: spec_fn(A, B) -> bool,
    b: B,
) -> (i: int)
    requires
        images(items, items.len() as int, out, rel),
        out.contains(b),
    ensures
        0 <= i < items.len(),
        rel(items[i], b),
{
    reveal(images);
    assert(has_source(items, items.len() as int, b, rel));
    choose|i: int| 0 <= i < items.len() && #[trigger] rel(items[i], b)
}

/// Where the items are a walk of `source`, `out` holds an image of everything
/// in `source`, and nothing else.
pub proof fn lemma_images_cover_set<A, B>(
    source: Set<A>,
    items: Seq<A>,
    out: Set<B>,
    rel: spec_fn(A, B) -> bool,
)
    requires
        images(items, items.len() as int, out, rel),
        forall|a: A| items.contains(a) <==> source.contains(a),
    ensures
        forall|a: A| #[trigger] source.contains(a) ==> has_image(a, out, rel),
        forall|b: B| #[trigger]
            out.contains(b) ==> exists|a: A| source.contains(a) && #[trigger] rel(a, b),
{
    assert forall|a: A| #[trigger] source.contains(a) implies has_image(a, out, rel) by {
        assert(items.contains(a));
        let i = choose|i: int| 0 <= i < items.len() && items[i] == a;
        let b = lemma_images_of_item(items, out, rel, i);
    }
    assert forall|b: B| #[trigger] out.contains(b) implies exists|a: A|
        source.contains(a) && #[trigger] rel(a, b) by {
        let i = lemma_images_from_item(items, out, rel, b);
        assert(items.contains(items[i]));
        assert(source.contains(items[i]) && rel(items[i], b));
    }
}

/// Whether `out` has a key that the key of `entry` is related to.
pub open spec fn has_key_image<A, C, B, D>(
    entry: (A, C),
    out: Map<B, D>,
    key_rel: spec_fn(A, B) -> bool,
) -> bool {
    exists|b: B| out.contains_key(b) && #[trigger] key_rel(entry.0, b)
}

/// Whether one of the first `n` entries is related to the entry of `out` at
/// `b`, key to key and value to value.
pub open spec fn has_entry_source<A, C, B, D>(
    entries: Seq<(A, C)>,
    n: int,
    out: Map<B, D>,
    b: B,
    key_rel: spec_fn(A, B) -> bool,
    value_rel: spec_fn(C, D) -> bool,
) -> bool {
    exists|i: int|
        0 <= i < n && #[trigger] key_rel(entries[i].0, b) && value_rel(entries[i].1, out[b])
}

/// Whether `out` has, for each of the first `n` entries, a key that the
/// entry's key is related to, and no entry that none of them is related to.
/// Where two entries share an image of their keys, `out` has the value of one
/// of them.
#[verifier::opaque]
pub open spec fn entry_images<A, C, B, D>(
    entries: Seq<(A, C)>,
    n: int,
    out: Map<B, D>,
    key_rel: spec_fn(A, B) -> bool,
    value_rel: spec_fn(C, D) -> bool,
) -> bool {
    &&& forall|i: int| 0 <= i < n ==> has_key_image(#[trigger] entries[i], out, key_rel)
    &&& forall|b: B| #[trigger]
        out.contains_key(b) ==> has_entry_source(entries, n, out, b, key_rel, value_rel)
}

/// Nothing inserted yet: the empty map holds the images of no entries.
pub proof fn lemma_entry_images_start<A, C, B, D>(
    entries: Seq<(A, C)>,
    key_rel: spec_fn(A, B) -> bool,
    value_rel: spec_fn(C, D) -> bool,
)
    ensures
        entry_images(entries, 0, Map::<B, D>::empty(), key_rel, value_rel),
{
    reveal(entry_images);
}

/// Inserting an image of the next entry.
pub proof fn lemma_entry_images_step<A, C, B, D>(
    entries: Seq<(A, C)>,
    n: int,
    out: Map<B, D>,
    key_rel: spec_fn(A, B) -> bool,
    value_rel: spec_fn(C, D) -> bool,
    key: B,
    value: D,
)
    requires
        0 <= n < entries.len(),
        entry_images(entries, n, out, key_rel, value_rel),
        key_rel(entries[n].0, key),
        value_rel(entries[n].1, value),
    ensures
        entry_images(entries, n + 1, out.insert(key, value), key_rel, value_rel),
{
    reveal(entry_images);
    let next = out.insert(key, value);
    assert forall|i: int| 0 <= i < n + 1 implies has_key_image(
        #[trigger] entries[i],
        next,
        key_rel,
    ) by {
        if i < n {
            assert(has_key_image(entries[i], out, key_rel));
            let b = choose|b: B| out.contains_key(b) && #[trigger] key_rel(entries[i].0, b);
            assert(next.contains_key(b) && key_rel(entries[i].0, b));
        } else {
            assert(next.contains_key(key) && key_rel(entries[i].0, key));
        }
    }
    assert forall|b: B| #[trigger] next.contains_key(b) implies has_entry_source(
        entries,
        n + 1,
        next,
        b,
        key_rel,
        value_rel,
    ) by {
        if b == key {
            assert(0 <= n < n + 1 && key_rel(entries[n].0, b) && value_rel(entries[n].1, next[b]));
        } else {
            assert(out.contains_key(b));
            assert(has_entry_source(entries, n, out, b, key_rel, value_rel));
            let i = choose|i: int|
                0 <= i < n && #[trigger] key_rel(entries[i].0, b) && value_rel(
                    entries[i].1,
                    out[b],
                );
            assert(0 <= i < n + 1 && key_rel(entries[i].0, b) && value_rel(entries[i].1, next[b]));
        }
    }
}

/// Every entry's key has an image among the keys of `out`.
pub proof fn lemma_entry_images_of_entry<A, C, B, D>(
    entries: Seq<(A, C)>,
    out: Map<B, D>,
    key_rel: spec_fn(A, B) -> bool,
    value_rel: spec_fn(C, D) -> bool,
    i: int,
) -> (b: B)
    requires
        entry_images(entries, entries.len() as int, out, key_rel, value_rel),
        0 <= i < entries.len(),
    ensures
        out.contains_key(b),
        key_rel(entries[i].0, b),
{
    reveal(entry_images);
    assert(has_key_image(entries[i], out, key_rel));
    choose|b: B| out.contains_key(b) && #[trigger] key_rel(entries[i].0, b)
}

/// Every entry of `out` is the image of some entry.
pub proof fn lemma_entry_images_from_entry<A, C, B, D>(
    entries: Seq<(A, C)>,
    out: Map<B, D>,
    key_rel: spec_fn(A, B) -> bool,
    value_rel: spec_fn(C, D) -> bool,
    b: B,
) -> (i: int)
    requires
        entry_images(entries, entries.len() as int, out, key_rel, value_rel),
        out.contains_key(b),
    ensures
        0 <= i < entries.len(),
        key_rel(entries[i].0, b),
        value_rel(entries[i].1, out[b]),
{
    reveal(entry_images);
    assert(has_entry_source(entries, entries.len() as int, out, b, key_rel, value_rel));
    choose|i: int|
        0 <= i < entries.len() && #[trigger] key_rel(entries[i].0, b) && value_rel(
            entries[i].1,
            out[b],
        )
}

/// Where the entries are a walk of `source`, `out` holds an image of every
/// entry of `source`, and nothing else.
pub proof fn lemma_images_cover_entries<A, C, B>(
    source: Map<A, C>,
    entries: Seq<(A, C)>,
    out: Set<B>,
    rel: spec_fn((A, C), B) -> bool,
)
    requires
        images(entries, entries.len() as int, out, rel),
        forall|a: A, c: C| entries.contains((a, c)) <==> (source.contains_key(a) && source[a] == c),
    ensures
        forall|a: A| #[trigger] source.contains_key(a) ==> has_image((a, source[a]), out, rel),
        forall|b: B| #[trigger]
            out.contains(b) ==> exists|a: A|
                source.contains_key(a) && #[trigger] rel((a, source[a]), b),
{
    assert forall|a: A| #[trigger] source.contains_key(a) implies has_image(
        (a, source[a]),
        out,
        rel,
    ) by {
        assert(entries.contains((a, source[a])));
        let i = choose|i: int| 0 <= i < entries.len() && entries[i] == (a, source[a]);
        let b = lemma_images_of_item(entries, out, rel, i);
    }
    assert forall|b: B| #[trigger] out.contains(b) implies exists|a: A|
        source.contains_key(a) && #[trigger] rel((a, source[a]), b) by {
        let i = lemma_images_from_item(entries, out, rel, b);
        assert(entries.contains(entries[i]));
        let a = entries[i].0;
        assert(entries.contains((a, entries[i].1)));
        assert(source.contains_key(a) && rel((a, source[a]), b));
    }
}

/// Where the entries are a walk of `source`, every key of `source` has an
/// image among the keys of `out`, and every entry of `out` is the image of an
/// entry of `source`.
pub proof fn lemma_entry_images_cover_map<A, C, B, D>(
    source: Map<A, C>,
    entries: Seq<(A, C)>,
    out: Map<B, D>,
    key_rel: spec_fn(A, B) -> bool,
    value_rel: spec_fn(C, D) -> bool,
)
    requires
        entry_images(entries, entries.len() as int, out, key_rel, value_rel),
        forall|a: A, c: C| entries.contains((a, c)) <==> (source.contains_key(a) && source[a] == c),
    ensures
        forall|a: A| #[trigger]
            source.contains_key(a) ==> has_key_image((a, source[a]), out, key_rel),
        forall|b: B| #[trigger]
            out.contains_key(b) ==> exists|a: A|
                source.contains_key(a) && #[trigger] key_rel(a, b) && value_rel(source[a], out[b]),
{
    assert forall|a: A| #[trigger] source.contains_key(a) implies has_key_image(
        (a, source[a]),
        out,
        key_rel,
    ) by {
        assert(entries.contains((a, source[a])));
        let i = choose|i: int| 0 <= i < entries.len() && entries[i] == (a, source[a]);
        let b = lemma_entry_images_of_entry(entries, out, key_rel, value_rel, i);
    }
    assert forall|b: B| #[trigger] out.contains_key(b) implies exists|a: A|
        source.contains_key(a) && #[trigger] key_rel(a, b) && value_rel(source[a], out[b]) by {
        let i = lemma_entry_images_from_entry(entries, out, key_rel, value_rel, b);
        assert(entries.contains(entries[i]));
        let a = entries[i].0;
        assert(entries.contains((a, entries[i].1)));
        assert(source.contains_key(a) && key_rel(a, b) && value_rel(source[a], out[b]));
    }
}

} // verus!
