use vstd::prelude::*;
use vstd::string::*;
use crate::text::{contains, contains_seq};

verus! {

/// A key press, as far as the disk menu tells keys apart.
#[derive(Clone, Copy, Debug, PartialEq, Eq, Structural)]
pub enum Key {
    Up,
    Down,
    Enter,
    Esc,
    Char(char),
    Other,
}

/// What a key press does to the menu as a whole.
#[derive(Clone, Copy, Debug, PartialEq, Eq, Structural)]
pub enum PickOutcome {
    /// Keep showing the menu.
    Continue,
    /// Esc: the user left the program.
    Cancelled,
    /// `q`: the selection is final.
    Confirmed,
}

/// A menu of `count` disks with a cursor, in which Enter selects or
/// unselects the disk under the cursor.
pub struct DiskPicker {
    count: usize,
    current: usize,
    selected: Vec<usize>,
}

pub struct PickerView {
    pub count: nat,
    pub current: nat,
    /// The selected positions, in the order they were selected.
    pub selected: Seq<usize>,
}

impl View for DiskPicker {
    type V = PickerView;

    closed spec fn view(&self) -> PickerView {
        PickerView {
            count: self.count as nat,
            current: self.current as nat,
            selected: self.selected@,
        }
    }
}

/// `s` without any `x`, the rest in order.
pub open spec fn without(s: Seq<usize>, x: usize) -> Seq<usize>
    decreases s.len(),
{
    if s.len() == 0 {
        seq![]
    } else {
        let w = without(s.drop_last(), x);
        if s.last() == x {
            w
        } else {
            w.push(s.last())
        }
    }
}

/// The cursor stays on a disk (on position 0 when there is none), and a
/// position is selected at most once, only where the cursor can be.
pub open spec fn picker_wf(v: PickerView) -> bool {
    &&& (if v.count == 0 {
        v.current == 0
    } else {
        v.current < v.count
    })
    &&& v.selected.no_duplicates()
    &&& forall|i: int| 0 <= i < v.selected.len() ==> (#[trigger] v.selected[i] < v.count || v.selected[i] == 0)
}

/// Enter on the cursor: unselect it when it was selected, else select it last.
pub open spec fn toggle(sel: Seq<usize>, cur: usize) -> Seq<usize> {
    if sel.contains(cur) {
        without(sel, cur)
    } else {
        sel.push(cur)
    }
}

/// What a key does: Up and Down move the cursor within the list, Enter
/// toggles the disk under it, Esc leaves, `q` confirms.
pub open spec fn picker_next(v: PickerView, key: Key) -> (PickerView, PickOutcome) {
    match key {
        Key::Up => (
            PickerView { current: if v.current > 0 { (v.current - 1) as nat } else { v.current }, ..v },
            PickOutcome::Continue,
        ),
        Key::Down => (
            PickerView { current: if v.current + 1 < v.count { v.current + 1 } else { v.current }, ..v },
            PickOutcome::Continue,
        ),
        Key::Enter => (PickerView { selected: toggle(v.selected, v.current as usize), ..v }, PickOutcome::Continue),
        Key::Esc => (v, PickOutcome::Cancelled),
        Key::Char(c) => if c == 'q' {
            (v, PickOutcome::Confirmed)
        } else {
            (v, PickOutcome::Continue)
        },
        Key::Other => (v, PickOutcome::Continue),
    }
}

proof fn lemma_without(s: Seq<usize>, x: usize)
    ensures
        !without(s, x).contains(x),
        forall|y: usize| y != x ==> (without(s, x).contains(y) <==> s.contains(y)),
        s.no_duplicates() ==> without(s, x).no_duplicates(),
        !s.contains(x) ==> without(s, x) == s,
    decreases s.len(),
{
    if s.len() > 0 {
        let p = s.drop_last();
        lemma_without(p, x);
        let w = without(p, x);
        assert forall|y: usize| #![auto] s.contains(y) <==> (p.contains(y) || s.last() == y) by {
            if s.contains(y) {
                let k = choose|k: int| 0 <= k < s.len() && s[k] == y;
                if k < s.len() - 1 {
                    assert(p[k] == y);
                }
            }
            if p.contains(y) {
                let k = choose|k: int| 0 <= k < p.len() && p[k] == y;
                assert(s[k] == y);
            }
            if s.last() == y {
                assert(s[s.len() - 1] == y);
            }
        }
        if s.last() != x {
            let r = w.push(s.last());
            assert forall|y: usize| #![auto] r.contains(y) <==> (w.contains(y) || s.last() == y) by {
                if r.contains(y) {
                    let k = choose|k: int| 0 <= k < r.len() && r[k] == y;
                    if k < r.len() - 1 {
                        assert(w[k] == y);
                    }
                }
                if w.contains(y) {
                    let k = choose|k: int| 0 <= k < w.len() && w[k] == y;
                    assert(r[k] == y);
                }
                if s.last() == y {
                    assert(r[r.len() - 1] == y);
                }
            }
            if s.no_duplicates() {
                assert(p.no_duplicates());
                assert(!p.contains(s.last())) by {
                    if p.contains(s.last()) {
                        let k = choose|k: int| 0 <= k < p.len() && p[k] == s.last();
                        assert(s[k] == s[s.len() - 1]);
                    }
                }
                assert(!w.contains(s.last()));
                assert forall|i: int, j: int| 0 <= i < j < r.len() implies r[i] != r[j] by {
                    if j == r.len() - 1 {
                        assert(w.contains(r[i]));
                    }
                }
            }
            if !s.contains(x) {
                assert(s =~= p.push(s.last()));
            }
        } else {
            if s.no_duplicates() {
                assert(p.no_duplicates());
            }
        }
    }
}

proof fn lemma_toggle_wf(v: PickerView)
    requires
        picker_wf(v),
    ensures
        picker_wf(picker_next(v, Key::Enter).0),
{
    let cur = v.current as usize;
    lemma_without(v.selected, cur);
    let t = toggle(v.selected, cur);
    if v.selected.contains(cur) {
        assert forall|i: int| 0 <= i < t.len() implies (#[trigger] t[i] < v.count || t[i] == 0) by {
            assert(t.contains(t[i]));
            assert(v.selected.contains(t[i]));
        }
    } else {
        assert forall|i: int, j: int| 0 <= i < j < t.len() implies t[i] != t[j] by {
            if j == t.len() - 1 {
                assert(v.selected[i] == t[i]);
            }
        }
        assert forall|i: int| 0 <= i < t.len() implies (#[trigger] t[i] < v.count || t[i] == 0) by {
            if i < t.len() - 1 {
                assert(t[i] == v.selected[i]);
            }
        }
    }
}

/// Every key keeps the menu well formed.
pub proof fn law_picker_keeps_wf(v: PickerView, key: Key)
    requires
        picker_wf(v),
    ensures
        picker_wf(picker_next(v, key).0),
{
    if key == Key::Enter {
        lemma_toggle_wf(v);
    }
}

/// Enter twice on the same disk leaves the same disks selected (the disk
/// may move to the end of the selection order) and the cursor where it was.
pub proof fn law_enter_twice_restores(v: PickerView)
    requires
        picker_wf(v),
    ensures
        picker_next(picker_next(v, Key::Enter).0, Key::Enter).0.selected.to_set()
            == v.selected.to_set(),
        picker_next(picker_next(v, Key::Enter).0, Key::Enter).0.current == v.current,
        picker_next(picker_next(v, Key::Enter).0, Key::Enter).0.count == v.count,
{
    let cur = v.current as usize;
    let s = v.selected;
    let once = picker_next(v, Key::Enter).0.selected;
    let twice = picker_next(picker_next(v, Key::Enter).0, Key::Enter).0.selected;
    lemma_without(s, cur);
    if s.contains(cur) {
        assert(!once.contains(cur));
        assert(twice == once.push(cur));
        assert forall|y: usize| #![auto] twice.to_set().contains(y) <==> s.to_set().contains(y) by {
            if twice.contains(y) {
                let k = choose|k: int| 0 <= k < twice.len() && twice[k] == y;
                if k < twice.len() - 1 {
                    assert(once[k] == y);
                }
            }
            if y != cur && s.contains(y) {
                assert(once.contains(y));
                let k = choose|k: int| 0 <= k < once.len() && once[k] == y;
                assert(twice[k] == y);
            }
            if y == cur {
                assert(twice[twice.len() - 1] == y);
            }
        }
        assert(twice.to_set() =~= s.to_set());
    } else {
        assert(once == s.push(cur));
        assert(once[once.len() - 1] == cur);
        assert(once.contains(cur));
        lemma_without(once, cur);
        assert(once.drop_last() =~= s);
        assert(twice == without(once, cur));
        assert(without(once, cur) == without(s, cur));
        assert(twice =~= s);
    }
}

impl DiskPicker {
    pub closed spec fn wf(&self) -> bool {
        picker_wf(self@)
    }

    /// The menu over `count` disks, cursor on the first, nothing selected.
    pub fn new(count: usize) -> (r: DiskPicker)
        ensures
            r@ == (PickerView { count: count as nat, current: 0, selected: seq![] }),
            r.wf(),
    {
        let r = DiskPicker { count, current: 0, selected: Vec::new() };
        assert(r@.selected =~= Seq::<usize>::empty());
        r
    }

    /// The position under the cursor.
    pub fn current(&self) -> (r: usize)
        ensures
            r == self@.current,
    {
        self.current
    }

    /// The selected positions, in the order they were selected.
    pub fn selected(&self) -> (r: &Vec<usize>)
        ensures
            r@ == self@.selected,
    {
        &self.selected
    }

    /// Handles one key. With no disk at all, Down is not handled (the list
    /// has no last position to stop at).
    pub fn handle(&mut self, key: Key) -> (r: PickOutcome)
        requires
            old(self).wf(),
            key == Key::Down ==> old(self)@.count > 0,
        ensures
            final(self).wf(),
            (final(self)@, r) == picker_next(old(self)@, key),
    {
        proof {
            law_picker_keeps_wf(self@, key);
        }
        match key {
            Key::Up => {
                if self.current > 0 {
                    self.current = self.current - 1;
                }
                PickOutcome::Continue
            },
            Key::Down => {
                if self.current < self.count - 1 {
                    self.current = self.current + 1;
                }
                PickOutcome::Continue
            },
            Key::Enter => {
                let cur = self.current;
                let n = self.selected.len();
                let mut found = false;
                let mut kept: Vec<usize> = Vec::new();
                let mut i: usize = 0;
                while i < n
                    invariant
                        n == self.selected@.len(),
                        i <= n,
                        kept@ == without(self.selected@.take(i as int), cur),
                        found == self.selected@.take(i as int).contains(cur),
                    decreases n - i,
                {
                    let ghost pre = self.selected@.take(i as int);
                    assert(self.selected@.take(i + 1).drop_last() =~= pre);
                    assert(self.selected@.take(i + 1).last() == self.selected@[i as int]);
                    proof {
                        lemma_push_contains(pre, self.selected@[i as int], cur);
                        assert(self.selected@.take(i + 1) =~= pre.push(self.selected@[i as int]));
                    }
                    let x = self.selected[i];
                    if x == cur {
                        found = true;
                    } else {
                        kept.push(x);
                    }
                    i = i + 1;
                }
                assert(self.selected@.take(n as int) =~= self.selected@);
                if found {
                    self.selected = kept;
                } else {
                    self.selected.push(cur);
                }
                PickOutcome::Continue
            },
            Key::Esc => PickOutcome::Cancelled,
            Key::Char(c) => if c == 'q' {
                PickOutcome::Confirmed
            } else {
                PickOutcome::Continue
            },
            Key::Other => PickOutcome::Continue,
        }
    }

    /// The selected disks, in the order they were selected.
    pub fn picked(&self, disks: &Vec<String>) -> (r: Vec<String>)
        requires
            forall|i: int| 0 <= i < self@.selected.len() ==> #[trigger] self@.selected[i] < disks@.len(),
        ensures
            r@.len() == self@.selected.len(),
            forall|i: int| 0 <= i < r@.len() ==> #[trigger] r@[i]@ == disks@[self@.selected[i] as int]@,
    {
        let mut out: Vec<String> = Vec::new();
        let n = self.selected.len();
        let mut i: usize = 0;
        while i < n
            invariant
                n == self@.selected.len(),
                self.selected@ == self@.selected,
                i <= n,
                out@.len() == i,
                forall|i: int| 0 <= i < self@.selected.len() ==> #[trigger] self@.selected[i] < disks@.len(),
                forall|k: int| 0 <= k < i ==> #[trigger] out@[k]@ == disks@[self@.selected[k] as int]@,
            decreases n - i,
        {
            let k = self.selected[i];
            assert(self@.selected[i as int] == k);
            out.push(disks[k].clone());
            i = i + 1;
        }
        out
    }
}

proof fn lemma_push_contains(s: Seq<usize>, x: usize, y: usize)
    ensures
        s.push(x).contains(y) <==> (s.contains(y) || x == y),
{
    let r = s.push(x);
    if r.contains(y) {
        let k = choose|k: int| 0 <= k < r.len() && r[k] == y;
        if k < s.len() {
            assert(s[k] == y);
        }
    }
    if s.contains(y) {
        let k = choose|k: int| 0 <= k < s.len() && s[k] == y;
        assert(r[k] == y);
    }
    if x == y {
        assert(r[s.len() as int] == y);
    }
}

/// The answer that a key gives to "proceed? (Y/N)": `y`/`Y` yes, `n`/`N`
/// no, any other key none yet.
pub open spec fn proceed_answer_of(key: Key) -> Option<bool> {
    match key {
        Key::Char(c) => if c == 'y' || c == 'Y' {
            Some(true)
        } else if c == 'n' || c == 'N' {
            Some(false)
        } else {
            None
        },
        _ => None,
    }
}

pub fn proceed_answer(key: Key) -> (r: Option<bool>)
    ensures
        r == proceed_answer_of(key),
{
    match key {
        Key::Char(c) => if c == 'y' || c == 'Y' {
            Some(true)
        } else if c == 'n' || c == 'N' {
            Some(false)
        } else {
            None
        },
        _ => None,
    }
}

/// How a picked disk is erased.
#[derive(Clone, Copy, Debug, PartialEq, Eq, Structural)]
pub enum WipeMethod {
    /// Overwrite by DoD 5220.22-M.
    Dod,
    /// ATA secure erase of a SATA SSD.
    AtaSecureErase,
    /// NVMe format with secure erase.
    NvmeSecureErase,
}

/// A line naming "HDD" is overwritten; else one naming both "SSD" and
/// "SATA" gets an ATA secure erase; else one naming "NVMe" an NVMe one.
pub open spec fn wipe_method_of(disk: Seq<char>) -> Option<WipeMethod> {
    if contains_seq(disk, "HDD"@) {
        Some(WipeMethod::Dod)
    } else if contains_seq(disk, "SSD"@) && contains_seq(disk, "SATA"@) {
        Some(WipeMethod::AtaSecureErase)
    } else if contains_seq(disk, "NVMe"@) {
        Some(WipeMethod::NvmeSecureErase)
    } else {
        None
    }
}

pub fn wipe_method(disk: &str) -> (r: Option<WipeMethod>)
    ensures
        r == wipe_method_of(disk@),
{
    if contains(disk, "HDD") {
        Some(WipeMethod::Dod)
    } else if contains(disk, "SSD") && contains(disk, "SATA") {
        Some(WipeMethod::AtaSecureErase)
    } else if contains(disk, "NVMe") {
        Some(WipeMethod::NvmeSecureErase)
    } else {
        None
    }
}

/// The shell commands of a plain DoD 5220.22-M overwrite of `device`:
/// three passes of random data, then one of zeros.
pub open spec fn dod_commands_of(device: Seq<char>) -> Seq<Seq<char>> {
    let random = "dd if=/dev/urandom of="@ + device + " bs=4M"@;
    seq![random, random, random, "dd if=/dev/zero of="@ + device + " bs=4M"@]
}

pub fn dod_commands(device: &str) -> (r: Vec<String>)
    ensures
        r.deep_view() == dod_commands_of(device@),
{
    let mut out: Vec<String> = Vec::new();
    let mut k: usize = 0;
    while k < 3
        invariant
            k <= 3,
            out@.len() == k,
            forall|i: int| 0 <= i < k ==> #[trigger] out@[i]@ == "dd if=/dev/urandom of="@ + device@ + " bs=4M"@,
        decreases 3 - k,
    {
        let mut c = String::from_str("dd if=/dev/urandom of=");
        c.append(device);
        c.append(" bs=4M");
        out.push(c);
        k = k + 1;
    }
    let mut z = String::from_str("dd if=/dev/zero of=");
    z.append(device);
    z.append(" bs=4M");
    out.push(z);
    assert(out.deep_view() =~= dod_commands_of(device@));
    out
}

} // verus!
