//! The list of active monitors and the choices made over it.
//!
//! A monitor's geometry (frames in screen points) is carried as an opaque
//! `G`: the choices here depend only on the order of the monitors, their
//! display ids, which one is primary, and, for "the monitor under a point",
//! on a containment test the caller supplies.

use vstd::prelude::*;
use crate::layout::action::LayoutAction;

verus! {

/// A physical display.
#[derive(Debug, Clone)]
pub struct Monitor<G> {
    /// The Core Graphics display ID.
    pub id: u32,
    /// Whether this is the primary display.
    pub is_primary: bool,
    /// The display's frames.
    pub geometry: G,
}

/// Manages display/monitor operations.
pub struct DisplayManager<G> {
    monitors: Vec<Monitor<G>>,
}

/// The index of the first monitor with display id `id`, or `s.len()` when
/// there is none.
pub open spec fn id_position<G>(s: Seq<Monitor<G>>, id: u32) -> int
    decreases s.len(),
{
    if s.len() == 0 {
        0
    } else if s[0].id == id {
        0
    } else {
        1 + id_position(s.drop_first(), id)
    }
}

/// The index the wrap-around moves start from: that of the monitor with
/// display id `id`, or the first monitor when no monitor has that id.
pub open spec fn start_index<G>(s: Seq<Monitor<G>>, id: u32) -> int {
    if id_position(s, id) < s.len() {
        id_position(s, id)
    } else {
        0
    }
}

/// The index of the monitor after the one with id `id`, wrapping around.
pub open spec fn next_index<G>(s: Seq<Monitor<G>>, id: u32) -> int {
    (start_index(s, id) + 1) % (s.len() as int)
}

/// The index of the monitor before the one with id `id`, wrapping around.
pub open spec fn previous_index<G>(s: Seq<Monitor<G>>, id: u32) -> int {
    if start_index(s, id) == 0 {
        s.len() - 1
    } else {
        start_index(s, id) - 1
    }
}

/// `i` is the first index whose monitor is primary (`None`: no monitor is).
pub open spec fn is_first_primary<G>(s: Seq<Monitor<G>>, i: Option<int>) -> bool {
    match i {
        Some(i) => 0 <= i < s.len() && s[i].is_primary && forall|j: int|
            0 <= j < i ==> !(#[trigger] s[j]).is_primary,
        None => forall|j: int| 0 <= j < s.len() ==> !(#[trigger] s[j]).is_primary,
    }
}

/// The index of the first primary monitor, if any.
pub open spec fn first_primary<G>(s: Seq<Monitor<G>>) -> Option<int>
    decreases s.len(),
{
    if s.len() == 0 {
        None
    } else if s[0].is_primary {
        Some(0)
    } else {
        match first_primary(s.drop_first()) {
            Some(i) => Some(i + 1),
            None => None,
        }
    }
}

/// `first_primary` is the first primary monitor's index.
pub proof fn lemma_first_primary<G>(s: Seq<Monitor<G>>)
    ensures
        is_first_primary(s, first_primary(s)),
    decreases s.len(),
{
    if s.len() > 0 && !s[0].is_primary {
        lemma_first_primary(s.drop_first());
        match first_primary(s.drop_first()) {
            Some(i) => {
                assert forall|j: int| 0 <= j < i + 1 implies !(#[trigger] s[j]).is_primary by {
                    if j > 0 {
                        assert(s[j] == s.drop_first()[j - 1]);
                    }
                }
                assert(s[i + 1] == s.drop_first()[i]);
            },
            None => {
                assert forall|j: int| 0 <= j < s.len() implies !(#[trigger] s[j]).is_primary by {
                    if j > 0 {
                        assert(s[j] == s.drop_first()[j - 1]);
                    }
                }
            },
        }
    }
}

/// `id_position` lies in `0..=len`, and names a monitor with that id when
/// below `len`; no earlier monitor has the id.
pub proof fn lemma_id_position<G>(s: Seq<Monitor<G>>, id: u32)
    ensures
        0 <= id_position(s, id) <= s.len(),
        id_position(s, id) < s.len() ==> s[id_position(s, id)].id == id,
        forall|j: int| 0 <= j < id_position(s, id) ==> (#[trigger] s[j]).id != id,
    decreases s.len(),
{
    if s.len() > 0 && s[0].id != id {
        lemma_id_position(s.drop_first(), id);
        assert forall|j: int| 0 <= j < id_position(s, id) implies (#[trigger] s[j]).id != id by {
            if j > 0 {
                assert(s[j] == s.drop_first()[j - 1]);
            }
        }
    }
}

/// When display ids are distinct, the monitor at `i` is found by its id.
pub proof fn lemma_id_position_distinct<G>(s: Seq<Monitor<G>>, i: int)
    requires
        0 <= i < s.len(),
        forall|j: int, k: int| 0 <= j < k < s.len() ==> (#[trigger] s[j]).id != (#[trigger] s[k]).id,
    ensures
        id_position(s, s[i].id) == i,
{
    lemma_id_position(s, s[i].id);
    let p = id_position(s, s[i].id);
    if p < i {
        assert(s[p].id == s[i].id);
    }
}

impl<G> View for DisplayManager<G> {
    type V = Seq<Monitor<G>>;

    closed spec fn view(&self) -> Seq<Monitor<G>> {
        self.monitors@
    }
}

impl<G> DisplayManager<G> {
    /// A display manager over the given monitors, in enumeration order.
    pub fn new(monitors: Vec<Monitor<G>>) -> (r: Self)
        ensures
            r@ == monitors@,
    {
        DisplayManager { monitors }
    }

    /// Replace the list of monitors (when displays change).
    pub fn refresh(&mut self, monitors: Vec<Monitor<G>>)
        ensures
            final(self)@ == monitors@,
    {
        self.monitors = monitors;
    }

    /// Get all monitors.
    pub fn monitors(&self) -> (r: &[Monitor<G>])
        ensures
            r@ == self@,
    {
        self.monitors.as_slice()
    }

    /// Get the primary monitor: the first one marked primary.
    pub fn primary(&self) -> (r: Option<&Monitor<G>>)
        ensures
            match first_primary(self@) {
                Some(i) => r == Some(&self@[i]),
                None => r is None,
            },
    {
        proof {
            lemma_first_primary(self@);
        }
        let n = self.monitors.len();
        let mut i: usize = 0;
        while i < n
            invariant
                n == self@.len(),
                i <= n,
                forall|j: int| 0 <= j < i ==> !(#[trigger] self@[j]).is_primary,
            decreases n - i,
        {
            if self.monitors[i].is_primary {
                proof {
                    lemma_first_primary(self@);
                    let k = first_primary(self@)->0;
                    if k < i {
                        assert(!self@[k].is_primary);
                    }
                }
                return Some(&self.monitors[i]);
            }
            i = i + 1;
        }
        proof {
            lemma_first_primary(self@);
            if first_primary(self@) is Some {
                assert(!self@[first_primary(self@)->0].is_primary);
            }
        }
        None
    }

    /// The index of the first monitor for which `contains` holds of its
    /// geometry.
    pub fn monitor_position<F: Fn(&G) -> bool>(&self, contains: F) -> (r: Option<usize>)
        requires
            forall|i: int| 0 <= i < self@.len() ==> contains.requires((&self@[i].geometry,)),
        ensures
            match r {
                Some(i) => i < self@.len() && contains.ensures((&self@[i as int].geometry,), true)
                    && forall|j: int|
                    0 <= j < i ==> contains.ensures((&self@[j].geometry,), false),
                None => forall|j: int|
                    0 <= j < self@.len() ==> contains.ensures((&self@[j].geometry,), false),
            },
    {
        let n = self.monitors.len();
        let mut i: usize = 0;
        while i < n
            invariant
                n == self@.len(),
                i <= n,
                forall|j: int| 0 <= j < self@.len() ==> contains.requires((&self@[j].geometry,)),
                forall|j: int| 0 <= j < i ==> contains.ensures((&self@[j].geometry,), false),
            decreases n - i,
        {
            let hit = contains(&self.monitors[i].geometry);
            if hit {
                return Some(i);
            }
            i = i + 1;
        }
        None
    }

    /// Find the monitor whose geometry `contains` accepts first (the
    /// monitor containing a given point, with the point test supplied).
    pub fn monitor_at<F: Fn(&G) -> bool>(&self, contains: F) -> (r: Option<&Monitor<G>>)
        requires
            forall|i: int| 0 <= i < self@.len() ==> contains.requires((&self@[i].geometry,)),
        ensures
            match r {
                Some(m) => exists|i: int|
                    0 <= i < self@.len() && m == &self@[i] && contains.ensures(
                        (&self@[i].geometry,),
                        true,
                    ) && forall|j: int|
                        0 <= j < i ==> contains.ensures((&self@[j].geometry,), false),
                None => forall|j: int|
                    0 <= j < self@.len() ==> contains.ensures((&self@[j].geometry,), false),
            },
    {
        match self.monitor_position(contains) {
            Some(i) => Some(&self.monitors[i]),
            None => None,
        }
    }

    fn position_of(&self, id: u32) -> (r: usize)
        ensures
            r == id_position(self@, id),
    {
        proof {
            lemma_id_position(self@, id);
        }
        let n = self.monitors.len();
        let mut i: usize = 0;
        while i < n
            invariant
                n == self@.len(),
                i <= n,
                forall|j: int| 0 <= j < i ==> (#[trigger] self@[j]).id != id,
                0 <= id_position(self@, id) <= n,
                id_position(self@, id) < n ==> self@[id_position(self@, id)].id == id,
                forall|j: int| 0 <= j < id_position(self@, id) ==> (#[trigger] self@[j]).id != id,
            decreases n - i,
        {
            if self.monitors[i].id == id {
                return i;
            }
            i = i + 1;
        }
        n
    }

    /// Get the next monitor after the one with display id `current_id`,
    /// wrapping around; when no monitor has that id, the one after the
    /// first. `None` when there are no monitors.
    pub fn next_monitor(&self, current_id: u32) -> (r: Option<&Monitor<G>>)
        ensures
            self@.len() == 0 ==> r is None,
            self@.len() > 0 ==> r == Some(&self@[next_index(self@, current_id)]),
    {
        let len = self.monitors.len();
        if len == 0 {
            return None;
        }
        let p = self.position_of(current_id);
        let idx = if p < len {
            p
        } else {
            0
        };
        Some(&self.monitors[(idx + 1) % len])
    }

    /// Get the monitor before the one with display id `current_id`,
    /// wrapping around; when no monitor has that id, the last one. `None`
    /// when there are no monitors.
    pub fn previous_monitor(&self, current_id: u32) -> (r: Option<&Monitor<G>>)
        ensures
            self@.len() == 0 ==> r is None,
            self@.len() > 0 ==> r == Some(&self@[previous_index(self@, current_id)]),
    {
        let len = self.monitors.len();
        if len == 0 {
            return None;
        }
        let p = self.position_of(current_id);
        let idx = if p < len {
            p
        } else {
            0
        };
        let prev_idx = if idx == 0 {
            len - 1
        } else {
            idx - 1
        };
        Some(&self.monitors[prev_idx])
    }
}


/// The index `containing` names, when it names a monitor.
pub open spec fn current_index<G>(s: Seq<Monitor<G>>, containing: Option<usize>) -> Option<int> {
    match containing {
        Some(i) => if i < s.len() {
            Some(i as int)
        } else {
            None
        },
        None => None,
    }
}

/// The display id moves start from: that of the current monitor, or `0`.
pub open spec fn current_id<G>(s: Seq<Monitor<G>>, containing: Option<usize>) -> u32 {
    match current_index(s, containing) {
        Some(i) => s[i].id,
        None => 0,
    }
}

/// The index of the monitor a layout action works on, given the index of
/// the monitor that holds the window's origin: the monitor after or before
/// it for the monitor moves, otherwise that monitor itself, falling back to
/// the primary monitor.
pub open spec fn target_index<G>(
    s: Seq<Monitor<G>>,
    action: LayoutAction,
    containing: Option<usize>,
) -> Option<int> {
    match action {
        LayoutAction::MoveToNextMonitor => if s.len() == 0 {
            None
        } else {
            Some(next_index(s, current_id(s, containing)))
        },
        LayoutAction::MoveToPreviousMonitor => if s.len() == 0 {
            None
        } else {
            Some(previous_index(s, current_id(s, containing)))
        },
        _ => match current_index(s, containing) {
            Some(i) => Some(i),
            None => first_primary(s),
        },
    }
}

impl<G> DisplayManager<G> {
    /// The monitor a layout action applies to, given `containing`, the
    /// index (from `monitor_position`) of the monitor that holds the
    /// window's origin: for the monitor moves the next or previous monitor
    /// (starting from display id 0 when the window is on no monitor),
    /// otherwise the window's own monitor or else the primary one.
    pub fn target_monitor(&self, action: LayoutAction, containing: Option<usize>) -> (r: Option<
        &Monitor<G>,
    >)
        ensures
            match target_index(self@, action, containing) {
                Some(i) => r == Some(&self@[i]),
                None => r is None,
            },
    {
        let current: Option<&Monitor<G>> = match containing {
            Some(i) => if i < self.monitors.len() {
                Some(&self.monitors[i])
            } else {
                None
            },
            None => None,
        };
        match action {
            LayoutAction::MoveToNextMonitor | LayoutAction::MoveToPreviousMonitor => {
                let id = match current {
                    Some(m) => m.id,
                    None => 0,
                };
                if action == LayoutAction::MoveToNextMonitor {
                    self.next_monitor(id)
                } else {
                    self.previous_monitor(id)
                }
            },
            _ => match current {
                Some(m) => Some(m),
                None => self.primary(),
            },
        }
    }
}

/// Display ids are pairwise distinct.
pub open spec fn distinct_ids<G>(s: Seq<Monitor<G>>) -> bool {
    forall|j: int, k: int| 0 <= j < k < s.len() ==> (#[trigger] s[j]).id != (#[trigger] s[k]).id
}

/// Moving to the previous monitor undoes moving to the next one: from the
/// monitor with display id `id`, the monitor before the one after it is the
/// monitor with `id` again (display ids distinct).
pub proof fn lemma_previous_undoes_next<G>(s: Seq<Monitor<G>>, id: u32)
    requires
        distinct_ids(s),
        id_position(s, id) < s.len(),
    ensures
        previous_index(s, s[next_index(s, id)].id) == id_position(s, id),
{
    lemma_id_position(s, id);
    let p = id_position(s, id);
    let len = s.len() as int;
    if p + 1 < len {
        vstd::arithmetic::div_mod::lemma_small_mod((p + 1) as nat, len as nat);
    } else {
        vstd::arithmetic::div_mod::lemma_mod_self_0(len);
    }
    let n = next_index(s, id);
    lemma_id_position_distinct(s, n);
}

/// Moving to the next monitor undoes moving to the previous one.
pub proof fn lemma_next_undoes_previous<G>(s: Seq<Monitor<G>>, id: u32)
    requires
        distinct_ids(s),
        id_position(s, id) < s.len(),
    ensures
        next_index(s, s[previous_index(s, id)].id) == id_position(s, id),
{
    lemma_id_position(s, id);
    let q = previous_index(s, id);
    let len = s.len() as int;
    lemma_id_position_distinct(s, q);
    if q + 1 < len {
        vstd::arithmetic::div_mod::lemma_small_mod((q + 1) as nat, len as nat);
    } else {
        vstd::arithmetic::div_mod::lemma_mod_self_0(len);
    }
}

/// With `n` monitors, `n` moves to the next monitor come back to the start,
/// and no fewer do: the moves visit every monitor once.
pub open spec fn after_next_moves<G>(s: Seq<Monitor<G>>, i: int, k: nat) -> int
    decreases k,
{
    if k == 0 {
        i
    } else {
        (after_next_moves(s, i, (k - 1) as nat) + 1) % (s.len() as int)
    }
}

/// From the monitor at index `i`, `k` moves to the next monitor reach index
/// `(i + k) % n` (display ids distinct), so the moves visit every monitor.
pub proof fn lemma_next_moves_cycle<G>(s: Seq<Monitor<G>>, i: int, k: nat)
    requires
        distinct_ids(s),
        0 <= i < s.len(),
    ensures
        after_next_moves(s, i, k) == (i + k) % (s.len() as int),
        k > 0 ==> after_next_moves(s, i, k) == next_index(
            s,
            s[after_next_moves(s, i, (k - 1) as nat)].id,
        ),
    decreases k,
{
    let n = s.len() as int;
    if k > 0 {
        lemma_next_moves_cycle(s, i, (k - 1) as nat);
        let prev = after_next_moves(s, i, (k - 1) as nat);
        vstd::arithmetic::div_mod::lemma_mod_bound(i + k - 1, n);
        lemma_id_position_distinct(s, prev);
        vstd::arithmetic::div_mod::lemma_add_mod_noop_right(1, i + k - 1, n);
    } else {
        vstd::arithmetic::div_mod::lemma_small_mod(i as nat, n as nat);
    }
}

/// How many display ids a query for the active displays asks for.
pub const MAX_DISPLAYS: u32 = 16;

/// How many entries of a display-list buffer of `capacity` ids are real,
/// given the count the system reported and its status: none when the query
/// failed, and never more than the buffer holds.
pub open spec fn active_count(capacity: nat, reported: u32, status: i32) -> nat {
    if status != 0 {
        0
    } else if reported <= capacity {
        reported as nat
    } else {
        capacity
    }
}

/// The active displays read from a display-list buffer `ids` that the
/// system filled: the first `active_count` ids, in order, each paired with
/// whether it is the main display `main_id`.
pub fn active_displays(ids: &Vec<u32>, reported: u32, status: i32, main_id: u32) -> (r: Vec<
    (u32, bool),
>)
    ensures
        r.len() == active_count(ids.len() as nat, reported, status),
        forall|i: int|
            0 <= i < r.len() ==> #[trigger] r[i] == (ids[i], ids[i] == main_id),
{
    let count: usize = if status != 0 {
        0
    } else if (reported as usize) <= ids.len() {
        reported as usize
    } else {
        ids.len()
    };
    let mut r: Vec<(u32, bool)> = Vec::new();
    let mut i: usize = 0;
    while i < count
        invariant
            count <= ids.len(),
            count == active_count(ids.len() as nat, reported, status),
            i <= count,
            r.len() == i,
            forall|j: int| 0 <= j < i ==> #[trigger] r[j] == (ids[j], ids[j] == main_id),
        decreases count - i,
    {
        let id = ids[i];
        r.push((id, id == main_id));
        i = i + 1;
    }
    r
}

} // verus!
