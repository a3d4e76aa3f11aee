//! Which windows are hidden from capture, and how they are put back.

use vstd::prelude::*;

verus! {

/// The display affinity of a window that is kept out of captures.
pub const WDA_EXCLUDEFROMCAPTURE: u32 = 0x11;

/// A window this process has hidden: how many captures asked for it, and the affinity it had
/// before the first of them did.
#[derive(Debug)]
struct Hidden {
    hwnd: isize,
    captures: u32,
    previous: u32,
}

/// What is remembered of a hidden window.
pub ghost struct HiddenState {
    /// How many captures hide it.
    pub captures: nat,
    /// The affinity it had before the first of them.
    pub previous: u32,
}

/// The hidden windows once one more capture hides `hwnd`, whose affinity is `affinity`.
///
/// The affinity only counts on the first hide: read again while the window is already excluded,
/// the exclusion would be saved as the thing to restore.
pub open spec fn hidden_once_more(
    hidden: Map<isize, HiddenState>,
    hwnd: isize,
    affinity: u32,
) -> Map<isize, HiddenState> {
    if hidden.contains_key(hwnd) {
        hidden.insert(
            hwnd,
            HiddenState { captures: hidden[hwnd].captures + 1, previous: hidden[hwnd].previous },
        )
    } else {
        hidden.insert(hwnd, HiddenState { captures: 1, previous: affinity })
    }
}

/// The hidden windows once one capture less hides `hwnd`.
pub open spec fn hidden_once_less(hidden: Map<isize, HiddenState>, hwnd: isize) -> Map<
    isize,
    HiddenState,
> {
    if !hidden.contains_key(hwnd) {
        hidden
    } else if hidden[hwnd].captures > 1 {
        hidden.insert(
            hwnd,
            HiddenState {
                captures: (hidden[hwnd].captures - 1) as nat,
                previous: hidden[hwnd].previous,
            },
        )
    } else {
        hidden.remove(hwnd)
    }
}

/// The affinity to put back once one capture less hides `hwnd`, if it was the last.
pub open spec fn to_restore(hidden: Map<isize, HiddenState>, hwnd: isize) -> Option<u32> {
    if hidden.contains_key(hwnd) && hidden[hwnd].captures <= 1 {
        Some(hidden[hwnd].previous)
    } else {
        None
    }
}

/// What to do to hide a window.
#[derive(Debug, Clone, Copy, PartialEq, Eq, Structural)]
pub enum HideStep {
    /// Nothing: it is hidden already.
    Done,
    /// Read its affinity and exclude it from capture.
    Exclude,
}

/// Every window hidden through this crate.
///
/// Windows keeps one affinity per window, so two captures hiding the same one cannot each
/// save and restore their own idea of it: the first hide saves it and the last restore puts
/// it back. Without this, dropping either capture would un-hide a window the other is still
/// recording, and a window named twice in one `hide` would stay hidden for good.
#[derive(Debug)]
pub struct HiddenWindows {
    entries: Vec<Hidden>,
}

impl View for HiddenWindows {
    type V = Map<isize, HiddenState>;

    closed spec fn view(&self) -> Map<isize, HiddenState> {
        hidden_map(self.entries@)
    }
}

spec fn hidden_map(entries: Seq<Hidden>) -> Map<isize, HiddenState>
    decreases entries.len(),
{
    if entries.len() == 0 {
        Map::empty()
    } else {
        let last = entries.last();
        hidden_map(entries.drop_last()).insert(
            last.hwnd,
            HiddenState { captures: last.captures as nat, previous: last.previous },
        )
    }
}

spec fn distinct(entries: Seq<Hidden>) -> bool {
    forall|i: int, j: int|
        0 <= i < j < entries.len() ==> (#[trigger] entries[i]).hwnd != (#[trigger] entries[j]).hwnd
}

proof fn lemma_hidden_map(entries: Seq<Hidden>)
    requires
        distinct(entries),
    ensures
        forall|i: int|
            0 <= i < entries.len() ==> {
                &&& hidden_map(entries).contains_key((#[trigger] entries[i]).hwnd)
                &&& hidden_map(entries)[entries[i].hwnd].captures == entries[i].captures
                &&& hidden_map(entries)[entries[i].hwnd].previous == entries[i].previous
            },
        forall|hwnd: isize| #[trigger]
            hidden_map(entries).contains_key(hwnd) ==> exists|i: int|
                0 <= i < entries.len() && (#[trigger] entries[i]).hwnd == hwnd,
    decreases entries.len(),
{
    if entries.len() > 0 {
        let front = entries.drop_last();
        assert forall|i: int, j: int| 0 <= i < j < front.len() implies (
        #[trigger] front[i]).hwnd != (#[trigger] front[j]).hwnd by {
            assert(front[i] == entries[i] && front[j] == entries[j]);
        }
        lemma_hidden_map(front);
        assert forall|i: int| 0 <= i < entries.len() implies {
            &&& hidden_map(entries).contains_key((#[trigger] entries[i]).hwnd)
            &&& hidden_map(entries)[entries[i].hwnd].captures == entries[i].captures
            &&& hidden_map(entries)[entries[i].hwnd].previous == entries[i].previous
        } by {
            if i < front.len() {
                assert(front[i] == entries[i]);
                assert(entries[i].hwnd != entries[entries.len() - 1].hwnd);
            }
        }
        assert forall|hwnd: isize| #[trigger]
            hidden_map(entries).contains_key(hwnd) implies exists|i: int|
            0 <= i < entries.len() && (#[trigger] entries[i]).hwnd == hwnd by {
            if hwnd == entries.last().hwnd {
                assert(entries[entries.len() - 1].hwnd == hwnd);
            } else {
                assert(hidden_map(front).contains_key(hwnd));
                let i = choose|i: int| 0 <= i < front.len() && (#[trigger] front[i]).hwnd == hwnd;
                assert(entries[i].hwnd == hwnd);
            }
        }
    }
}

impl HiddenWindows {
    /// No window is listed twice, and each is hidden by at least one capture.
    pub closed spec fn wf(&self) -> bool {
        &&& distinct(self.entries@)
        &&& forall|i: int|
            0 <= i < self.entries@.len() ==> (#[trigger] self.entries@[i]).captures > 0
    }

    /// No window is hidden.
    pub fn new() -> (hidden: Self)
        ensures
            hidden.wf(),
            hidden@ == Map::<isize, HiddenState>::empty(),
    {
        HiddenWindows { entries: Vec::new() }
    }

    fn position(&self, hwnd: isize) -> (index: Option<usize>)
        requires
            self.wf(),
        ensures
            match index {
                Some(index) => index < self.entries@.len() && self.entries@[index as int].hwnd
                    == hwnd && self@.contains_key(hwnd),
                None => !self@.contains_key(hwnd),
            },
    {
        proof {
            lemma_hidden_map(self.entries@);
        }
        let mut i: usize = 0;
        while i < self.entries.len()
            invariant
                i <= self.entries@.len(),
                forall|j: int| 0 <= j < i ==> (#[trigger] self.entries@[j]).hwnd != hwnd,
                forall|j: int|
                    0 <= j < self.entries@.len() ==> self@.contains_key(
                        (#[trigger] self.entries@[j]).hwnd,
                    ),
            decreases self.entries@.len() - i,
        {
            if self.entries[i].hwnd == hwnd {
                return Some(i);
            }
            i = i + 1;
        }
        None
    }

    /// How many captures hide a window.
    pub fn captures(&self, hwnd: isize) -> (captures: u32)
        requires
            self.wf(),
        ensures
            captures == if self@.contains_key(hwnd) {
                self@[hwnd].captures
            } else {
                0
            },
            captures > 0 <==> self@.contains_key(hwnd),
    {
        match self.position(hwnd) {
            Some(index) => {
                proof {
                    lemma_hidden_map(self.entries@);
                }
                self.entries[index].captures
            },
            None => 0,
        }
    }

    /// Hide a window from screen capture until as many [`unhide_window`](Self::unhide_window)
    /// calls come back.
    ///
    /// Where the window has to be excluded first, [`excluded`](Self::excluded) reports that it
    /// was.
    pub fn hide_window_from_capture(&mut self, hwnd: isize) -> (step: HideStep)
        requires
            old(self).wf(),
            old(self)@.contains_key(hwnd) ==> old(self)@[hwnd].captures < u32::MAX,
        ensures
            final(self).wf(),
            if old(self)@.contains_key(hwnd) {
                &&& step == HideStep::Done
                &&& final(self)@ == hidden_once_more(old(self)@, hwnd, 0)
            } else {
                &&& step == HideStep::Exclude
                &&& final(self)@ == old(self)@
            },
    {
        match self.position(hwnd) {
            None => HideStep::Exclude,
            Some(index) => {
                let ghost before = self.entries@;
                proof {
                    lemma_hidden_map(before);
                    assert(before[index as int].hwnd == hwnd);
                }
                let captures: u32 = self.entries[index].captures + 1;
                let previous: u32 = self.entries[index].previous;
                self.entries[index] = Hidden { hwnd, captures, previous };
                proof {
                    self.lemma_replaced(before, index as int);
                }
                HideStep::Done
            },
        }
    }

    proof fn lemma_replaced(&self, before: Seq<Hidden>, index: int)
        requires
            distinct(before),
            forall|i: int| 0 <= i < before.len() ==> (#[trigger] before[i]).captures > 0,
            0 <= index < before.len(),
            self.entries@.len() == before.len(),
            self.entries@ == before.update(index, self.entries@[index]),
            self.entries@[index].hwnd == before[index].hwnd,
            self.entries@[index].captures > 0,
        ensures
            self.wf(),
            self@ == hidden_map(before).insert(
                before[index].hwnd,
                HiddenState {
                    captures: self.entries@[index].captures as nat,
                    previous: self.entries@[index].previous,
                },
            ),
    {
        let after = self.entries@;
        assert forall|i: int, j: int| 0 <= i < j < after.len() implies (
        #[trigger] after[i]).hwnd != (#[trigger] after[j]).hwnd by {
            assert(before[i].hwnd != before[j].hwnd);
        }
        lemma_hidden_map(before);
        lemma_hidden_map(after);
        let expected = hidden_map(before).insert(
            before[index].hwnd,
            HiddenState {
                captures: after[index].captures as nat,
                previous: after[index].previous,
            },
        );
        assert forall|hwnd: isize| hidden_map(after).contains_key(hwnd) <==> #[trigger]
            expected.contains_key(hwnd) by {
            if hidden_map(after).contains_key(hwnd) {
                let i = choose|i: int| 0 <= i < after.len() && (#[trigger] after[i]).hwnd == hwnd;
                assert(before[i].hwnd == hwnd);
            }
            if hidden_map(before).contains_key(hwnd) {
                let i = choose|i: int| 0 <= i < before.len() && (#[trigger] before[i]).hwnd == hwnd;
                assert(after[i].hwnd == hwnd);
            }
            if hwnd == before[index].hwnd {
                assert(after[index].hwnd == hwnd);
            }
        }
        assert forall|hwnd: isize| #[trigger] hidden_map(after).contains_key(hwnd) implies
            hidden_map(after)[hwnd] == expected[hwnd] by {
            let i = choose|i: int| 0 <= i < after.len() && (#[trigger] after[i]).hwnd == hwnd;
            assert(before[i].hwnd == hwnd);
            if i != index {
                assert(after[i] == before[i]);
                if i < index {
                    assert(before[i].hwnd != before[index].hwnd);
                } else {
                    assert(before[index].hwnd != before[i].hwnd);
                }
            }
        }
        assert(hidden_map(after) =~= expected);
    }

    /// Remember a window that was excluded, and the affinity it had before.
    pub fn excluded(&mut self, hwnd: isize, previous: u32)
        requires
            old(self).wf(),
            !old(self)@.contains_key(hwnd),
        ensures
            final(self).wf(),
            final(self)@ == hidden_once_more(old(self)@, hwnd, previous),
    {
        let ghost before = self.entries@;
        proof {
            lemma_hidden_map(before);
        }
        self.entries.push(Hidden { hwnd, captures: 1, previous });
        assert(self.entries@.drop_last() =~= before);
    }

    /// Undo one [`hide_window_from_capture`](Self::hide_window_from_capture); gives the affinity
    /// to put back once the last one is undone.
    pub fn unhide_window(&mut self, hwnd: isize) -> (restore: Option<u32>)
        requires
            old(self).wf(),
        ensures
            final(self).wf(),
            restore == to_restore(old(self)@, hwnd),
            final(self)@ == hidden_once_less(old(self)@, hwnd),
    {
        let index = match self.position(hwnd) {
            None => return None,
            Some(index) => index,
        };
        let ghost before = self.entries@;
        proof {
            lemma_hidden_map(before);
            assert(before[index as int].hwnd == hwnd);
            assert(before[index as int].captures > 0);
        }
        let captures: u32 = self.entries[index].captures - 1;
        let previous: u32 = self.entries[index].previous;
        if captures > 0 {
            self.entries[index] = Hidden { hwnd, captures, previous };
            proof {
                self.lemma_replaced(before, index as int);
            }
            return None;
        }
        let entry = self.entries.swap_remove(index);
        proof {
            self.lemma_swap_removed(before, index as int);
        }
        Some(entry.previous)
    }

    proof fn lemma_swap_removed(&self, before: Seq<Hidden>, index: int)
        requires
            distinct(before),
            forall|i: int| 0 <= i < before.len() ==> (#[trigger] before[i]).captures > 0,
            0 <= index < before.len(),
            self.entries@ == before.update(index, before.last()).drop_last(),
        ensures
            self.wf(),
            self@ == hidden_map(before).remove(before[index].hwnd),
    {
        let after = self.entries@;
        let last = before.len() - 1;
        assert forall|i: int| 0 <= i < after.len() implies #[trigger] after[i] == if i == index {
            before[last]
        } else {
            before[i]
        } by {}
        assert forall|i: int, j: int| 0 <= i < j < after.len() implies (
        #[trigger] after[i]).hwnd != (#[trigger] after[j]).hwnd by {
            let bi = if i == index {
                last
            } else {
                i
            };
            let bj = if j == index {
                last
            } else {
                j
            };
            if bi < bj {
                assert(before[bi].hwnd != before[bj].hwnd);
            } else {
                assert(before[bj].hwnd != before[bi].hwnd);
            }
        }
        lemma_hidden_map(before);
        lemma_hidden_map(after);
        let gone = before[index].hwnd;
        assert forall|hwnd: isize| hidden_map(after).contains_key(hwnd) implies hwnd != gone
            && hidden_map(before).contains_key(hwnd) && hidden_map(after)[hwnd]
            == #[trigger] hidden_map(before)[hwnd] by {
            let i = choose|i: int| 0 <= i < after.len() && (#[trigger] after[i]).hwnd == hwnd;
            let bi = if i == index {
                last
            } else {
                i
            };
            assert(after[i] == before[bi]);
            if bi < index {
                assert(before[bi].hwnd != before[index].hwnd);
            } else {
                assert(before[index].hwnd != before[bi].hwnd);
            }
        }
        assert forall|hwnd: isize| #[trigger] hidden_map(before).contains_key(hwnd) && hwnd
            != gone implies hidden_map(after).contains_key(hwnd) by {
            let bi = choose|i: int| 0 <= i < before.len() && (#[trigger] before[i]).hwnd == hwnd;
            let i = if bi == last {
                index
            } else {
                bi
            };
            assert(after[i] == before[bi]);
            assert(after[i].hwnd == hwnd);
        }
        assert(hidden_map(after) =~= hidden_map(before).remove(gone));
    }
}

/// The hidden windows together with the affinity that each window of the system has.
pub ghost struct Desk {
    /// The hidden windows.
    pub hidden: Map<isize, HiddenState>,
    /// What Windows keeps for each window.
    pub affinity: Map<isize, u32>,
}

/// A capture hides a window.
pub open spec fn desk_hide(desk: Desk, hwnd: isize) -> Desk {
    Desk {
        hidden: hidden_once_more(desk.hidden, hwnd, desk.affinity[hwnd]),
        affinity: if desk.hidden.contains_key(hwnd) {
            desk.affinity
        } else {
            desk.affinity.insert(hwnd, WDA_EXCLUDEFROMCAPTURE)
        },
    }
}

/// A capture lets go of a window that it hides.
pub open spec fn desk_unhide(desk: Desk, hwnd: isize) -> Desk {
    Desk {
        hidden: hidden_once_less(desk.hidden, hwnd),
        affinity: match to_restore(desk.hidden, hwnd) {
            Some(previous) => desk.affinity.insert(hwnd, previous),
            None => desk.affinity,
        },
    }
}

/// A capture hides windows, one after the other.
pub open spec fn desk_hide_all(desk: Desk, windows: Seq<isize>) -> Desk
    decreases windows.len(),
{
    if windows.len() == 0 {
        desk
    } else {
        desk_hide_all(desk_hide(desk, windows[0]), windows.drop_first())
    }
}

/// A capture lets go of windows, one after the other.
pub open spec fn desk_unhide_all(desk: Desk, windows: Seq<isize>) -> Desk
    decreases windows.len(),
{
    if windows.len() == 0 {
        desk
    } else {
        desk_unhide_all(desk_unhide(desk, windows[0]), windows.drop_first())
    }
}

/// Whether every hidden window is hidden by some capture, and every window has an affinity.
pub open spec fn desk_valid(desk: Desk) -> bool {
    &&& forall|hwnd: isize| #[trigger]
        desk.hidden.contains_key(hwnd) ==> desk.hidden[hwnd].captures > 0
    &&& forall|hwnd: isize| #[trigger] desk.affinity.contains_key(hwnd)
}

proof fn lemma_unhide_undoes_one(desk: Desk, hwnd: isize, rest: Seq<isize>)
    requires
        desk_valid(desk),
    ensures
        desk_unhide(desk_hide_all(desk_hide(desk, hwnd), rest), hwnd) == desk_hide_all(desk, rest),
    decreases rest.len(),
{
    if rest.len() == 0 {
        let after = desk_unhide(desk_hide(desk, hwnd), hwnd);
        assert(desk.affinity.contains_key(hwnd));
        assert(after.hidden =~= desk.hidden);
        assert(after.affinity =~= desk.affinity);
    } else {
        let other = rest[0];
        let tail = rest.drop_first();
        if other == hwnd {
            lemma_unhide_undoes_one(desk_hide(desk, hwnd), hwnd, tail);
        } else {
            let a = desk_hide(desk_hide(desk, hwnd), other);
            let b = desk_hide(desk_hide(desk, other), hwnd);
            assert(a.hidden =~= b.hidden);
            assert(a.affinity =~= b.affinity);
            lemma_unhide_undoes_one(desk_hide(desk, other), hwnd, tail);
        }
    }
}

/// A capture that hides windows and lets go of them leaves every window as it was, also where
/// other captures hide some of them and where one is named more than once.
pub proof fn law_hiding_leaves_no_trace(desk: Desk, windows: Seq<isize>)
    requires
        desk_valid(desk),
    ensures
        desk_unhide_all(desk_hide_all(desk, windows), windows) == desk,
    decreases windows.len(),
{
    if windows.len() > 0 {
        lemma_unhide_undoes_one(desk, windows[0], windows.drop_first());
        law_hiding_leaves_no_trace(desk, windows.drop_first());
    }
}

/// Whether every window that some capture hides is kept out of captures.
pub open spec fn hidden_are_excluded(desk: Desk) -> bool {
    forall|hwnd: isize| #[trigger]
        desk.hidden.contains_key(hwnd) ==> desk.affinity[hwnd] == WDA_EXCLUDEFROMCAPTURE
}

/// A window is kept out of captures as long as some capture hides it: hiding another window or
/// letting go of one changes nothing about that.
pub proof fn law_hidden_are_excluded(desk: Desk, hwnd: isize)
    requires
        hidden_are_excluded(desk),
    ensures
        hidden_are_excluded(desk_hide(desk, hwnd)),
        hidden_are_excluded(desk_unhide(desk, hwnd)),
        desk_hide(desk, hwnd).hidden.contains_key(hwnd),
{
    let more = desk_hide(desk, hwnd);
    assert forall|other: isize| #[trigger] more.hidden.contains_key(other) implies
        more.affinity[other] == WDA_EXCLUDEFROMCAPTURE by {
        if other != hwnd {
            assert(desk.hidden.contains_key(other));
        }
    }
    let less = desk_unhide(desk, hwnd);
    assert forall|other: isize| #[trigger] less.hidden.contains_key(other) implies
        less.affinity[other] == WDA_EXCLUDEFROMCAPTURE by {
        assert(desk.hidden.contains_key(other));
    }
}

/// A window that two captures hide stays hidden when one of them lets go of it, and what was
/// remembered of it stays too.
pub proof fn law_hidden_until_the_last(desk: Desk, hwnd: isize)
    requires
        desk_valid(desk),
        desk.hidden.contains_key(hwnd),
    ensures
        desk_unhide(desk_hide(desk, hwnd), hwnd).affinity[hwnd] == desk.affinity[hwnd],
        desk_unhide(desk_hide(desk, hwnd), hwnd).hidden.contains_key(hwnd),
        desk_unhide(desk_hide(desk, hwnd), hwnd).hidden[hwnd] == desk.hidden[hwnd],
{
}

/// A window is excluded when the first capture hides it, and each further one is only counted; no
/// other window is affected.
pub proof fn law_hides_are_counted(
    hidden: &mut HiddenWindows,
    hwnd: isize,
    step: HideStep,
    window: isize,
    before: u32,
    after: u32,
)
    requires
        hidden.wf(),
        call_ensures(HiddenWindows::captures, (&*hidden, window), before),
        call_ensures(HiddenWindows::hide_window_from_capture, (hidden, hwnd), step),
        call_ensures(HiddenWindows::captures, (&*final(hidden), window), after),
    ensures
        window == hwnd && before == 0 ==> step is Exclude && after == 0,
        window == hwnd && before > 0 ==> step is Done && after == before + 1,
        window != hwnd ==> after == before,
{
}

/// A window that was excluded counts as hidden once, and nothing else changes.
pub proof fn law_excluded_windows_are_hidden(
    hidden: &mut HiddenWindows,
    hwnd: isize,
    previous: u32,
    window: isize,
    before: u32,
    after: u32,
    first: u32,
)
    requires
        hidden.wf(),
        call_ensures(HiddenWindows::captures, (&*hidden, hwnd), first),
        first == 0,
        call_ensures(HiddenWindows::captures, (&*hidden, window), before),
        call_ensures(HiddenWindows::excluded, (hidden, hwnd, previous), ()),
        call_ensures(HiddenWindows::captures, (&*final(hidden), window), after),
    ensures
        window == hwnd ==> after == 1,
        window != hwnd ==> after == before,
{
}

/// Letting go of a window counts down, and gives back an affinity exactly where the last capture
/// lets go; no other window is affected.
pub proof fn law_unhides_are_counted(
    hidden: &mut HiddenWindows,
    hwnd: isize,
    restore: Option<u32>,
    window: isize,
    before: u32,
    after: u32,
    count: u32,
)
    requires
        hidden.wf(),
        call_ensures(HiddenWindows::captures, (&*hidden, hwnd), count),
        call_ensures(HiddenWindows::captures, (&*hidden, window), before),
        call_ensures(HiddenWindows::unhide_window, (hidden, hwnd), restore),
        call_ensures(HiddenWindows::captures, (&*final(hidden), window), after),
    ensures
        restore is Some <==> count == 1,
        window == hwnd && before > 0 ==> after == before - 1,
        window == hwnd && before == 0 ==> after == 0,
        window != hwnd ==> after == before,
{
}

/// What a window gets back is the affinity it had before it was excluded, however often it was hidden
/// in between.
pub proof fn law_affinity_comes_back(
    hidden: &mut HiddenWindows,
    hwnd: isize,
    previous: u32,
    more: &mut HiddenWindows,
    step: HideStep,
    less: &mut HiddenWindows,
    first: Option<u32>,
    last: &mut HiddenWindows,
    restore: Option<u32>,
)
    requires
        !hidden@.contains_key(hwnd),
        call_ensures(HiddenWindows::excluded, (hidden, hwnd, previous), ()),
        *more == *final(hidden),
        call_ensures(HiddenWindows::hide_window_from_capture, (more, hwnd), step),
        *less == *final(more),
        call_ensures(HiddenWindows::unhide_window, (less, hwnd), first),
        *last == *final(less),
        call_ensures(HiddenWindows::unhide_window, (last, hwnd), restore),
    ensures
        step is Done,
        first is None,
        restore == Some(previous),
        final(last)@ == old(hidden)@,
{
    assert(final(last)@ =~= hidden@);
}

/// A window that the system keeps out of captures has the affinity that Windows has for that.
pub proof fn law_excluded_affinity(desk: Desk, hwnd: isize)
    requires
        !desk.hidden.contains_key(hwnd),
    ensures
        desk_hide(desk, hwnd).affinity[hwnd] == 0x11,
        WDA_EXCLUDEFROMCAPTURE == 17,
{
}

/// At first no window is hidden.
pub proof fn law_nothing_is_hidden_at_first(hidden: HiddenWindows, hwnd: isize, captures: u32)
    requires
        call_ensures(HiddenWindows::new, (), hidden),
        call_ensures(HiddenWindows::captures, (&hidden, hwnd), captures),
    ensures
        captures == 0,
        hidden@ == Map::<isize, HiddenState>::empty(),
{
}

/// What a window gets back is the affinity it had, whatever becomes of another window in between.
pub proof fn law_affinity_is_kept(
    hidden: &mut HiddenWindows,
    hwnd: isize,
    previous: u32,
    more: &mut HiddenWindows,
    other: isize,
    its: u32,
    again: &mut HiddenWindows,
    step: HideStep,
    less: &mut HiddenWindows,
    one: Option<u32>,
    last: &mut HiddenWindows,
    restore: Option<u32>,
    rest: &mut HiddenWindows,
    two: Option<u32>,
)
    requires
        !hidden@.contains_key(hwnd),
        !hidden@.contains_key(other),
        other != hwnd,
        call_ensures(HiddenWindows::excluded, (hidden, hwnd, previous), ()),
        *more == *final(hidden),
        call_ensures(HiddenWindows::excluded, (more, other, its), ()),
        *again == *final(more),
        call_ensures(HiddenWindows::hide_window_from_capture, (again, other), step),
        *less == *final(again),
        call_ensures(HiddenWindows::unhide_window, (less, other), one),
        *last == *final(less),
        call_ensures(HiddenWindows::unhide_window, (last, hwnd), restore),
        *rest == *final(last),
        call_ensures(HiddenWindows::unhide_window, (rest, other), two),
    ensures
        step is Done,
        one is None,
        restore == Some(previous),
        two == Some(its),
        final(rest)@ == old(hidden)@,
{
    assert(final(rest)@ =~= hidden@);
}

} // verus!
