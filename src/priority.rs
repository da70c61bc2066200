use vstd::prelude::*;
use crate::config::is_admin;
use crate::state::{Identity, MintError, MintingAccount};

verus! {

/// The priority list after adding each of `new` in turn, skipping any
/// identity already present.
pub open spec fn add_all(list: Seq<Identity>, new: Seq<Identity>) -> Seq<Identity>
    decreases new.len(),
{
    if new.len() == 0 {
        list
    } else {
        let l = add_all(list, new.drop_last());
        if l.contains(new.last()) {
            l
        } else {
            l.push(new.last())
        }
    }
}

/// The priority list after removing each of `old` in turn, by the position of
/// its first occurrence; absent identities are skipped.
pub open spec fn remove_all(list: Seq<Identity>, old: Seq<Identity>) -> Seq<Identity>
    decreases old.len(),
{
    if old.len() == 0 {
        list
    } else {
        remove_all(list, old.drop_last()).remove_value(old.last())
    }
}

/// Position of the first occurrence of `x` in `list`.
pub fn position(list: &Vec<Identity>, x: Identity) -> (r: Option<usize>)
    ensures
        r matches Some(i) ==> list@.index_of_first(x) == Some(i as int),
        r is None <==> !list@.contains(x),
        r matches Some(i) ==> i < list@.len() && list@[i as int] == x,
{
    let mut i: usize = 0;
    while i < list.len()
        invariant
            i <= list@.len(),
            forall|j: int| 0 <= j < i ==> list@[j] != x,
        decreases list@.len() - i,
    {
        if list[i] == x {
            proof {
                list@.index_of_first_ensures(x);
                let k = list@.index_of_first(x).unwrap();
                assert(k == i as int) by {
                    if k < i {
                        assert(list@[k] != x);
                    } else if k > i {
                        assert(list@[i as int] != x);
                    }
                }
            }
            return Some(i);
        }
        i += 1;
    }
    proof {
        list@.index_of_first_ensures(x);
    }
    None
}

/// Whether `x` is on the priority list.
pub fn is_listed(list: &Vec<Identity>, x: Identity) -> (r: bool)
    ensures
        r == list@.contains(x),
{
    position(list, x).is_some()
}

proof fn lemma_add_all_no_duplicates(list: Seq<Identity>, new: Seq<Identity>)
    requires
        list.no_duplicates(),
    ensures
        add_all(list, new).no_duplicates(),
    decreases new.len(),
{
    if new.len() > 0 {
        lemma_add_all_no_duplicates(list, new.drop_last());
    }
}

fn add_unique(list: &mut Vec<Identity>, new: &Vec<Identity>)
    ensures
        final(list)@ == add_all(old(list)@, new@),
{
    let ghost start = old(list)@;
    let mut i: usize = 0;
    while i < new.len()
        invariant
            i <= new@.len(),
            list@ == add_all(start, new@.subrange(0, i as int)),
        decreases new@.len() - i,
    {
        let x = new[i];
        assert(new@.subrange(0, i + 1).drop_last() =~= new@.subrange(0, i as int));
        if !is_listed(list, x) {
            list.push(x);
        }
        i += 1;
    }
    assert(new@.subrange(0, new@.len() as int) =~= new@);
}

fn remove_present(list: &mut Vec<Identity>, old_ids: &Vec<Identity>)
    ensures
        final(list)@ == remove_all(old(list)@, old_ids@),
{
    let ghost start = old(list)@;
    let mut i: usize = 0;
    while i < old_ids.len()
        invariant
            i <= old_ids@.len(),
            list@ == remove_all(start, old_ids@.subrange(0, i as int)),
        decreases old_ids@.len() - i,
    {
        let x = old_ids[i];
        assert(old_ids@.subrange(0, i + 1).drop_last() =~= old_ids@.subrange(0, i as int));
        match position(list, x) {
            Some(index) => {
                list.remove(index);
            },
            None => {
                proof {
                    list@.index_of_first_ensures(x);
                }
            },
        }
        i += 1;
    }
    assert(old_ids@.subrange(0, old_ids@.len() as int) =~= old_ids@);
}

impl MintingAccount {
    /// Adds each identity of `new_og_list` to the priority list unless it is
    /// already there.
    pub fn add_og_list(&mut self, signer: Identity, new_og_list: &Vec<Identity>) -> (r: Result<
        (),
        MintError,
    >)
        requires
            old(self).wf(),
        ensures
            final(self).wf(),
            old(self).admin_key != signer ==> r == Err::<(), MintError>(MintError::NotAuthorized)
                && *final(self) == *old(self),
            old(self).admin_key == signer ==> r is Ok && final(self).og_list@ == add_all(
                old(self).og_list@,
                new_og_list@,
            ) && *final(self) == (MintingAccount { og_list: final(self).og_list, ..*old(self) }),
    {
        is_admin(self, signer)?;
        add_unique(&mut self.og_list, new_og_list);
        proof {
            lemma_add_all_no_duplicates(old(self).og_list@, new_og_list@);
        }
        Ok(())
    }

    /// Removes each identity of `old_og_list` from the priority list; absent
    /// ones are skipped.
    pub fn remove_og_list(&mut self, signer: Identity, old_og_list: &Vec<Identity>) -> (r: Result<
        (),
        MintError,
    >)
        requires
            old(self).wf(),
        ensures
            final(self).wf(),
            old(self).admin_key != signer ==> r == Err::<(), MintError>(MintError::NotAuthorized)
                && *final(self) == *old(self),
            old(self).admin_key == signer ==> r is Ok && final(self).og_list@ == remove_all(
                old(self).og_list@,
                old_og_list@,
            ) && *final(self) == (MintingAccount { og_list: final(self).og_list, ..*old(self) }),
    {
        is_admin(self, signer)?;
        remove_present(&mut self.og_list, old_og_list);
        proof {
            lemma_remove_all_no_duplicates(old(self).og_list@, old_og_list@);
        }
        Ok(())
    }
}

proof fn lemma_remove_all_no_duplicates(list: Seq<Identity>, old: Seq<Identity>)
    requires
        list.no_duplicates(),
    ensures
        remove_all(list, old).no_duplicates(),
    decreases old.len(),
{
    if old.len() > 0 {
        lemma_remove_all_no_duplicates(list, old.drop_last());
        let l = remove_all(list, old.drop_last());
        l.index_of_first_ensures(old.last());
        match l.index_of_first(old.last()) {
            Some(i) => {
                assert forall|a: int, b: int|
                    0 <= a < l.remove(i).len() && 0 <= b < l.remove(i).len() && a != b implies l.remove(
                    i,
                )[a] != l.remove(i)[b] by {
                    let a2 = if a < i { a } else { a + 1 };
                    let b2 = if b < i { b } else { b + 1 };
                    assert(l.remove(i)[a] == l[a2]);
                    assert(l.remove(i)[b] == l[b2]);
                }
            },
            None => {},
        }
    }
}

/// Adding an identity twice, in one call or in two, leaves the priority list
/// as adding it once does: it holds the identity exactly once. Removing an
/// identity that is absent leaves the list unchanged.
pub proof fn law_priority_list_idempotent(list: Seq<Identity>, x: Identity)
    requires
        list.no_duplicates(),
    ensures
        add_all(add_all(list, seq![x]), seq![x]) == add_all(list, seq![x]),
        add_all(list, seq![x, x]) == add_all(list, seq![x]),
        add_all(list, seq![x]).contains(x),
        add_all(list, seq![x]).no_duplicates(),
        add_all(list, seq![x]).filter(|y: Identity| y == x).len() == 1,
        !list.contains(x) ==> remove_all(list, seq![x]) == list,
{
    let once = add_all(list, seq![x]);
    assert(seq![x].drop_last() =~= Seq::<Identity>::empty());
    assert(seq![x, x].drop_last() =~= seq![x]);
    assert(add_all(list, Seq::<Identity>::empty()) == list);
    assert(once == (if list.contains(x) {
        list
    } else {
        list.push(x)
    }));
    assert(add_all(once, Seq::<Identity>::empty()) == once);
    lemma_add_all_no_duplicates(list, seq![x]);
    assert(once.contains(x)) by {
        if !list.contains(x) {
            assert(once[list.len() as int] == x);
        }
    }
    lemma_single_in_no_dup_filter(once, x);
    if !list.contains(x) {
        list.index_of_first_ensures(x);
        assert(remove_all(list, Seq::<Identity>::empty()) == list);
        assert(remove_all(list, seq![x]) == list.remove_value(x));
    }
}

proof fn lemma_single_in_no_dup_filter(s: Seq<Identity>, x: Identity)
    requires
        s.no_duplicates(),
        s.contains(x),
    ensures
        s.filter(|y: Identity| y == x).len() == 1,
    decreases s.len(),
{
    let f = |y: Identity| y == x;
    reveal(Seq::filter);
    let rest = s.drop_last();
    assert(rest.no_duplicates());
    if s.last() == x {
        assert(!rest.contains(x));
        lemma_absent_filter_empty(rest, x);
    } else {
        assert(rest.contains(x)) by {
            let i = choose|i: int| 0 <= i < s.len() && s[i] == x;
            assert(rest[i] == x);
        }
        lemma_single_in_no_dup_filter(rest, x);
    }
}

proof fn lemma_absent_filter_empty(s: Seq<Identity>, x: Identity)
    requires
        !s.contains(x),
    ensures
        s.filter(|y: Identity| y == x).len() == 0,
    decreases s.len(),
{
    reveal(Seq::filter);
    if s.len() > 0 {
        let rest = s.drop_last();
        assert(!rest.contains(x)) by {
            if rest.contains(x) {
                let i = choose|i: int| 0 <= i < rest.len() && rest[i] == x;
                assert(s[i] == x);
            }
        }
        assert(s[s.len() - 1] != x);
        lemma_absent_filter_empty(rest, x);
    }
}

} // verus!
