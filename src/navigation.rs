use vstd::prelude::*;

verus! {

/// How far one page step moves the selection.
pub const PAGE_SIZE: usize = 10;

/// Selection after moving one item forward over a list of `len` items,
/// wrapping from the last item to the first.
pub open spec fn next_selection(sel: Option<usize>, len: nat) -> Option<usize> {
    if len == 0 {
        sel
    } else {
        match sel {
            Some(i) => Some(((i + 1) % (len as int)) as usize),
            None => Some(0),
        }
    }
}

/// Selection after moving one item backward, wrapping from the first item to the last.
pub open spec fn previous_selection(sel: Option<usize>, len: nat) -> Option<usize> {
    if len == 0 {
        sel
    } else {
        match sel {
            Some(i) => Some(if i == 0 { (len - 1) as usize } else { (i - 1) as usize }),
            None => Some(0),
        }
    }
}

/// Selection after one page forward: clamped to the last item.
pub open spec fn next_page_selection(sel: Option<usize>, len: nat) -> Option<usize> {
    match sel {
        Some(i) => Some(
            if i + PAGE_SIZE <= len - 1 { (i + PAGE_SIZE) as usize } else { (len - 1) as usize },
        ),
        None => None,
    }
}

/// Selection after one page backward: clamped to the first item.
pub open spec fn previous_page_selection(sel: Option<usize>) -> Option<usize> {
    match sel {
        Some(i) => Some(if i >= PAGE_SIZE { (i - PAGE_SIZE) as usize } else { 0usize }),
        None => None,
    }
}

/// The selection after `k` forward moves.
pub open spec fn next_selection_times(sel: Option<usize>, len: nat, k: nat) -> Option<usize>
    decreases k,
{
    if k == 0 {
        sel
    } else {
        next_selection(next_selection_times(sel, len, (k - 1) as nat), len)
    }
}

/// Moving forward and then backward over a non-empty list returns to the
/// selected item, and so does moving backward and then forward.
pub proof fn lemma_next_previous_inverse(i: usize, len: nat)
    requires
        i < len,
        len <= usize::MAX,
    ensures
        previous_selection(next_selection(Some(i), len), len) == Some(i),
        next_selection(previous_selection(Some(i), len), len) == Some(i),
{
    if i + 1 < len {
        vstd::arithmetic::div_mod::lemma_small_mod((i + 1) as nat, len);
    } else {
        vstd::arithmetic::div_mod::lemma_mod_self_0(len as int);
    }
    if i == 0 {
        vstd::arithmetic::div_mod::lemma_mod_self_0(len as int);
    } else {
        vstd::arithmetic::div_mod::lemma_small_mod(i as nat, len);
    }
}

proof fn lemma_next_selection_times(i: usize, len: nat, k: nat)
    requires
        i < len,
        len <= usize::MAX,
    ensures
        next_selection_times(Some(i), len, k) == Some(((i + k) % (len as int)) as usize),
    decreases k,
{
    if k == 0 {
        vstd::arithmetic::div_mod::lemma_small_mod(i as nat, len);
    } else {
        lemma_next_selection_times(i, len, (k - 1) as nat);
        let j = (i + k - 1) % (len as int);
        vstd::arithmetic::div_mod::lemma_mod_bound((i + k - 1) as int, len as int);
        vstd::arithmetic::div_mod::lemma_add_mod_noop((i + k - 1) as int, 1, len as int);
        if len == 1 {
            vstd::arithmetic::div_mod::lemma_mod_self_0(1);
        } else {
            vstd::arithmetic::div_mod::lemma_small_mod(1, len);
        }
    }
}

/// Moving forward as many times as the list is long returns to the selected item.
pub proof fn lemma_next_cycle(i: usize, len: nat)
    requires
        i < len,
        len <= usize::MAX,
    ensures
        next_selection_times(Some(i), len, len) == Some(i),
{
    lemma_next_selection_times(i, len, len);
    vstd::arithmetic::div_mod::lemma_add_mod_noop(i as int, len as int, len as int);
    vstd::arithmetic::div_mod::lemma_mod_self_0(len as int);
    vstd::arithmetic::div_mod::lemma_small_mod(i as nat, len);
}

} // verus!
