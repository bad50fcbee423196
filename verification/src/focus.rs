//! The focused window: reading its identifier out of the window manager's
//! answer, and noticing when it changes.

use vstd::prelude::*;

verus! {

/// Why the focused window could not be told.
#[derive(Clone, Copy, Debug, PartialEq, Eq, Structural)]
pub enum WindowQueryError {
    /// The window manager could not be asked.
    Unavailable,
    /// The window manager does not know the property that names the focused window.
    AtomMissing,
    /// The property is there but holds nothing.
    EmptyProperty,
    /// The property does not hold a 32-bit window identifier.
    BadFormat { format: u8, len: usize },
}

/// The order in which a machine lays out the bytes of a number.
#[derive(Clone, Copy, Debug, PartialEq, Eq, Structural)]
pub enum ByteOrder {
    /// Least significant byte first.
    LittleEndian,
    /// Most significant byte first.
    BigEndian,
}

/// The number that the first four bytes of `value` hold in the given order.
pub open spec fn window_id_of(value: Seq<u8>, order: ByteOrder) -> int {
    match order {
        ByteOrder::LittleEndian => value[0] + 0x100 * value[1] + 0x1_0000 * value[2] + 0x100_0000
            * value[3],
        ByteOrder::BigEndian => value[3] + 0x100 * value[2] + 0x1_0000 * value[1] + 0x100_0000
            * value[0],
    }
}

/// Whether a property with this format and value holds a window identifier.
pub open spec fn is_window_property(format: u8, value: Seq<u8>) -> bool {
    format == 32 && value.len() >= 4
}

/// What the focused-window property says: no window if it is empty, the
/// window in its first four bytes if it holds 32-bit items, and otherwise
/// nothing that can be read.
pub open spec fn window_of_property(format: u8, value: Seq<u8>, order: ByteOrder) -> Result<
    Option<u32>,
    WindowQueryError,
> {
    if value.len() == 0 {
        Ok(None)
    } else if is_window_property(format, value) {
        Ok(Some(window_id_of(value, order) as u32))
    } else {
        Err(WindowQueryError::BadFormat { format, len: value.len() as usize })
    }
}

/// The identifier in the first four bytes of `value`.
fn window_id(value: &[u8], order: ByteOrder) -> (id: u32)
    requires
        value@.len() >= 4,
    ensures
        id == window_id_of(value@, order),
{
    let (b0, b1, b2, b3) = match order {
        ByteOrder::LittleEndian => (value[0], value[1], value[2], value[3]),
        ByteOrder::BigEndian => (value[3], value[2], value[1], value[0]),
    };
    b0 as u32 + 0x100 * (b1 as u32) + 0x1_0000 * (b2 as u32) + 0x100_0000 * (b3 as u32)
}

/// Checks the atom that the window manager gave for the focused-window
/// property: zero means that it knows no such property.
pub fn active_window_atom(atom: u32) -> (r: Result<u32, WindowQueryError>)
    ensures
        atom == 0 ==> r == Err::<u32, WindowQueryError>(WindowQueryError::AtomMissing),
        atom != 0 ==> r == Ok::<u32, WindowQueryError>(atom),
{
    if atom == 0 {
        Err(WindowQueryError::AtomMissing)
    } else {
        Ok(atom)
    }
}

/// Reads the focused window out of the focused-window property, given the
/// property's format and value as the window manager sent them and the byte
/// order in which it sent them.
///
/// An empty value means that no window has the focus, which is no error.
pub fn get_active_window_id(format: u8, value: &[u8], order: ByteOrder) -> (r: Result<
    Option<u32>,
    WindowQueryError,
>)
    ensures
        r == window_of_property(format, value@, order),
{
    if value.len() == 0 {
        Ok(None)
    } else if format == 32 && value.len() >= 4 {
        Ok(Some(window_id(value, order)))
    } else {
        Err(WindowQueryError::BadFormat { format, len: value.len() })
    }
}

/// Reads the focused window out of the focused-window property, for a caller
/// that needs a window: an empty value is an error here.
pub fn get_active_window_id_directly(format: u8, value: &[u8], order: ByteOrder) -> (r: Result<
    u32,
    WindowQueryError,
>)
    ensures
        r == match window_of_property(format, value@, order) {
            Ok(Some(id)) => Ok(id),
            Ok(None) => Err(WindowQueryError::EmptyProperty),
            Err(e) => Err(e),
        },
{
    if value.len() == 0 {
        Err(WindowQueryError::EmptyProperty)
    } else if format == 32 && value.len() >= 4 {
        Ok(window_id(value, order))
    } else {
        Err(WindowQueryError::BadFormat { format, len: value.len() })
    }
}

/// One reading of the focused window: a window, no window, or no answer.
pub type Reading = Result<Option<u32>, WindowQueryError>;

/// The focus passing to a window.
#[derive(Clone, Copy, Debug, PartialEq, Eq, Structural)]
pub struct FocusChange {
    /// The window that had the focus according to the reading before, if any.
    pub previous: Option<u32>,
    /// The window that has it now.
    pub current: u32,
}

/// The window remembered after `reading`: the window read, or none if no
/// window has the focus. A reading that failed leaves the memory as it was.
pub open spec fn focus_after(last: Option<u32>, reading: Reading) -> Option<u32> {
    match reading {
        Ok(window) => window,
        Err(_) => last,
    }
}

/// The change that `reading` shows: the focus passing to a window other than
/// the one remembered. The focus passing to no window is not a change.
pub open spec fn focus_change(last: Option<u32>, reading: Reading) -> Option<FocusChange> {
    match reading {
        Ok(Some(id)) => if last != Some(id) {
            Some(FocusChange { previous: last, current: id })
        } else {
            None
        },
        _ => None,
    }
}

/// The window remembered after a series of readings.
pub open spec fn focus_after_all(last: Option<u32>, readings: Seq<Reading>) -> Option<u32>
    decreases readings.len(),
{
    if readings.len() == 0 {
        last
    } else {
        focus_after(focus_after_all(last, readings.drop_last()), readings.last())
    }
}

/// The changes that a series of readings shows, in order.
pub open spec fn focus_changes(last: Option<u32>, readings: Seq<Reading>) -> Seq<FocusChange>
    decreases readings.len(),
{
    if readings.len() == 0 {
        Seq::empty()
    } else {
        let before = focus_changes(last, readings.drop_last());
        match focus_change(focus_after_all(last, readings.drop_last()), readings.last()) {
            Some(change) => before.push(change),
            None => before,
        }
    }
}

/// Remembers the window that had the focus at the last reading.
#[derive(Clone, Copy, Debug, PartialEq, Eq, Structural)]
pub struct FocusWatcher {
    last: Option<u32>,
}

impl View for FocusWatcher {
    type V = Option<u32>;

    closed spec fn view(&self) -> Option<u32> {
        self.last
    }
}

impl FocusWatcher {
    /// A watcher that has not seen any window yet.
    pub fn new() -> (watcher: FocusWatcher)
        ensures
            watcher@ is None,
    {
        FocusWatcher { last: None }
    }

    /// The window remembered.
    pub fn last(&self) -> (last: Option<u32>)
        ensures
            last == self@,
    {
        self.last
    }

    /// Takes one reading and says whether the focus has passed to another window.
    pub fn observe(&mut self, reading: Reading) -> (change: Option<FocusChange>)
        ensures
            final(self)@ == focus_after(old(self)@, reading),
            change == focus_change(old(self)@, reading),
    {
        match reading {
            Ok(Some(id)) => {
                let previous = self.last;
                self.last = Some(id);
                match previous {
                    Some(p) => if p == id {
                        None
                    } else {
                        Some(FocusChange { previous, current: id })
                    },
                    None => Some(FocusChange { previous, current: id }),
                }
            },
            Ok(None) => {
                self.last = None;
                None
            },
            Err(_) => None,
        }
    }
}

/// Goes through a series of readings, starting with no window remembered,
/// and lists each passing of the focus to another window.
///
/// The first reading has to succeed: if it fails, its error is the result.
/// A later reading that fails is passed over.
pub fn listen_active_window_changes(readings: &Vec<Reading>) -> (r: Result<
    Vec<FocusChange>,
    WindowQueryError,
>)
    ensures
        readings@.len() > 0 && readings@[0] is Err ==> r == Err::<
            Vec<FocusChange>,
            WindowQueryError,
        >(readings@[0]->Err_0),
        !(readings@.len() > 0 && readings@[0] is Err) ==> (r matches Ok(changes) && changes@
            == focus_changes(None, readings@)),
{
    if readings.len() > 0 {
        if let Err(e) = readings[0] {
            return Err(e);
        }
    }
    let mut watcher = FocusWatcher::new();
    let mut changes: Vec<FocusChange> = Vec::new();
    let mut i: usize = 0;
    assert(readings@.take(0) =~= Seq::<Reading>::empty());
    while i < readings.len()
        invariant
            0 <= i <= readings.len(),
            watcher@ == focus_after_all(None, readings@.take(i as int)),
            changes@ == focus_changes(None, readings@.take(i as int)),
        decreases readings.len() - i,
    {
        let change = watcher.observe(readings[i]);
        proof {
            let next = readings@.take(i + 1);
            assert(next.drop_last() =~= readings@.take(i as int));
            assert(next.last() == readings@[i as int]);
        }
        if let Some(c) = change {
            changes.push(c);
        }
        i = i + 1;
    }
    assert(readings@.take(readings@.len() as int) =~= readings@);
    Ok(changes)
}

/// Every change in a series of readings is to a window other than the one
/// that had the focus before, and there are no more changes than readings.
pub proof fn lemma_changes_are_changes(last: Option<u32>, readings: Seq<Reading>)
    ensures
        focus_changes(last, readings).len() <= readings.len(),
        forall|i: int|
            0 <= i < focus_changes(last, readings).len() ==> (#[trigger] focus_changes(
                last,
                readings,
            )[i]).previous != Some(focus_changes(last, readings)[i].current),
    decreases readings.len(),
{
    if readings.len() > 0 {
        lemma_changes_are_changes(last, readings.drop_last());
    }
}

} // verus!
