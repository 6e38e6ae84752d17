//! Notification keys: how they are derived, compared and deduplicated.
//!
//! A key is an opaque string. A model's own key is its identifier; the key of
//! an index or of an aggregate is the owner's identifier, the separator `::`
//! and a short fixed tag.

use vstd::prelude::*;
use vstd::string::StringExecFns;

verus! {

/// The separator between an identifier and the tag of a derived key.
pub open spec fn separator() -> Seq<char> {
    seq![':', ':']
}

/// The derived key `"{base}::{suffix}"`.
pub open spec fn derived_key(base: Seq<char>, suffix: Seq<char>) -> Seq<char> {
    base + separator() + suffix
}

/// The tag of the index that lists the updates of one model.
pub open spec fn history_tag() -> Seq<char> {
    "history"@
}

/// The contents of a list of strings.
pub open spec fn strings_view(v: Seq<String>) -> Seq<Seq<char>> {
    v.map_values(|s: String| s@)
}

/// `keys` without repetitions: of equal keys only the first stays, and the
/// keys that stay keep their order.
pub open spec fn dedup(keys: Seq<Seq<char>>) -> Seq<Seq<char>>
    decreases keys.len(),
{
    if keys.len() == 0 {
        keys
    } else {
        let front = dedup(keys.drop_last());
        if front.contains(keys.last()) {
            front
        } else {
            front.push(keys.last())
        }
    }
}

/// A deduplicated list holds no key twice and exactly the keys of its input.
pub proof fn lemma_dedup_members(keys: Seq<Seq<char>>)
    ensures
        dedup(keys).no_duplicates(),
        dedup(keys).len() <= keys.len(),
        forall|k: Seq<char>| dedup(keys).contains(k) <==> keys.contains(k),
    decreases keys.len(),
{
    if keys.len() > 0 {
        let init = keys.drop_last();
        let last = keys.last();
        lemma_dedup_members(init);
        let front = dedup(init);
        assert forall|k: Seq<char>| dedup(keys).contains(k) <==> keys.contains(k) by {
            if keys.contains(k) {
                let i = choose|i: int| 0 <= i < keys.len() && keys[i] == k;
                if i < keys.len() - 1 {
                    assert(init[i] == k);
                    assert(init.contains(k));
                    assert(front.contains(k));
                }
                if !front.contains(last) {
                    assert(front.push(last)[front.len() as int] == last);
                    if front.contains(k) {
                        let j = choose|j: int| 0 <= j < front.len() && front[j] == k;
                        assert(front.push(last)[j] == k);
                    }
                }
            }
            if dedup(keys).contains(k) {
                let j = choose|j: int| 0 <= j < dedup(keys).len() && dedup(keys)[j] == k;
                if j < front.len() {
                    assert(front[j] == k);
                    assert(front.contains(k));
                    assert(init.contains(k));
                    let i = choose|i: int| 0 <= i < init.len() && init[i] == k;
                    assert(keys[i] == k);
                } else {
                    assert(k == last);
                    assert(keys[keys.len() - 1] == k);
                }
            }
        }
    }
}

/// Deduplicating a list that holds no key twice changes nothing.
pub proof fn lemma_dedup_of_distinct(keys: Seq<Seq<char>>)
    requires
        keys.no_duplicates(),
    ensures
        dedup(keys) == keys,
    decreases keys.len(),
{
    if keys.len() > 0 {
        let init = keys.drop_last();
        lemma_dedup_of_distinct(init);
        lemma_dedup_members(init);
        if init.contains(keys.last()) {
            let i = choose|i: int| 0 <= i < init.len() && init[i] == keys.last();
            assert(keys[i] == keys[keys.len() - 1]);
        }
        assert(init.push(keys.last()) =~= keys);
    }
}

/// The contents of a list that grew by one string.
pub proof fn lemma_strings_push(v: Seq<String>, s: String)
    ensures
        strings_view(v.push(s)) == strings_view(v).push(s@),
{
    assert(strings_view(v.push(s)) =~= strings_view(v).push(s@));
}

/// Builds the derived key `"{base}::{suffix}"`.
pub fn derive_key(base: &str, suffix: &str) -> (key: String)
    ensures
        key@ == derived_key(base@, suffix@),
{
    let mut key = String::from_str(base);
    key.append("::");
    key.append(suffix);
    proof {
        reveal_strlit("::");
        assert("::"@ =~= separator());
    }
    key
}

/// Whether `key` occurs in `keys`.
pub fn key_listed(keys: &Vec<String>, key: &String) -> (found: bool)
    ensures
        found == strings_view(keys@).contains(key@),
{
    let mut i: usize = 0;
    while i < keys.len()
        invariant
            i <= keys.len(),
            forall|j: int| 0 <= j < i ==> strings_view(keys@)[j] != key@,
        decreases keys.len() - i,
    {
        if keys[i] == *key {
            assert(strings_view(keys@)[i as int] == key@);
            return true;
        }
        i += 1;
    }
    false
}

/// A copy of `keys`.
pub fn clone_keys(keys: &Vec<String>) -> (copy: Vec<String>)
    ensures
        strings_view(copy@) == strings_view(keys@),
{
    let mut copy: Vec<String> = Vec::new();
    let mut i: usize = 0;
    while i < keys.len()
        invariant
            i <= keys.len(),
            strings_view(copy@) == strings_view(keys@).take(i as int),
        decreases keys.len() - i,
    {
        let ghost before = copy@;
        copy.push(keys[i].clone());
        proof {
            lemma_strings_push(before, keys@[i as int]);
            assert(copy@ =~= before.push(keys@[i as int]));
            assert(strings_view(keys@).take(i + 1) =~= strings_view(keys@).take(i as int).push(
                keys@[i as int]@,
            ));
        }
        i += 1;
    }
    assert(strings_view(keys@).take(keys.len() as int) =~= strings_view(keys@));
    copy
}

/// Appends a copy of every key of `more` to `keys`.
pub fn extend_keys(keys: &mut Vec<String>, more: &Vec<String>)
    ensures
        strings_view(final(keys)@) == strings_view(old(keys)@) + strings_view(more@),
{
    let mut i: usize = 0;
    while i < more.len()
        invariant
            i <= more.len(),
            strings_view(keys@) == strings_view(old(keys)@) + strings_view(more@).take(i as int),
        decreases more.len() - i,
    {
        let ghost before = keys@;
        keys.push(more[i].clone());
        proof {
            lemma_strings_push(before, more@[i as int]);
            assert(keys@ =~= before.push(more@[i as int]));
            assert(strings_view(more@).take(i + 1) =~= strings_view(more@).take(i as int).push(
                more@[i as int]@,
            ));
            assert(strings_view(keys@) =~= strings_view(old(keys)@) + strings_view(more@).take(
                i + 1,
            ));
        }
        i += 1;
    }
    assert(strings_view(more@).take(more.len() as int) =~= strings_view(more@));
}

/// Removes the repetitions from `keys`, keeping the first of equal keys.
pub fn dedup_keys(keys: &Vec<String>) -> (distinct: Vec<String>)
    ensures
        strings_view(distinct@) == dedup(strings_view(keys@)),
{
    let mut distinct: Vec<String> = Vec::new();
    let mut i: usize = 0;
    assert(strings_view(keys@).take(0) =~= Seq::<Seq<char>>::empty());
    while i < keys.len()
        invariant
            i <= keys.len(),
            strings_view(distinct@) == dedup(strings_view(keys@).take(i as int)),
        decreases keys.len() - i,
    {
        let ghost next = strings_view(keys@).take(i + 1);
        assert(next.drop_last() =~= strings_view(keys@).take(i as int));
        assert(next.last() == keys@[i as int]@);
        if !key_listed(&distinct, &keys[i]) {
            let ghost before = distinct@;
            distinct.push(keys[i].clone());
            proof {
                lemma_strings_push(before, keys@[i as int]);
                assert(distinct@ =~= before.push(keys@[i as int]));
            }
        }
        i += 1;
    }
    assert(strings_view(keys@).take(keys.len() as int) =~= strings_view(keys@));
    distinct
}

/// An empty list of keys.
pub fn no_keys() -> (keys: Vec<String>)
    ensures
        strings_view(keys@) == Seq::<Seq<char>>::empty(),
{
    let keys: Vec<String> = Vec::new();
    assert(strings_view(keys@) =~= Seq::<Seq<char>>::empty());
    keys
}

/// The contents of an optional string.
pub open spec fn option_view(text: Option<String>) -> Option<Seq<char>> {
    match text {
        Some(t) => Some(t@),
        None => None,
    }
}

/// A copy of an optional string.
pub fn clone_option(text: &Option<String>) -> (copy: Option<String>)
    ensures
        option_view(copy) == option_view(*text),
{
    match text {
        Some(t) => Some(t.clone()),
        None => None,
    }
}

} // verus!
