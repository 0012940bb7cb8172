//! Devices that the runtime tracks outside of any interaction profile.
use vstd::prelude::*;

verus! {

/// The first NUL of `buffer` is at `n`.
pub open spec fn first_nul_at(buffer: Seq<u8>, n: int) -> bool {
    &&& 0 <= n < buffer.len()
    &&& buffer[n] == 0
    &&& forall|j: int| 0 <= j < n ==> buffer[j] != 0
}

/// The C string that `buffer` starts with: what stands before its first NUL.
pub open spec fn c_string(buffer: Seq<u8>) -> Seq<u8> {
    buffer.take(choose|n: int| first_nul_at(buffer, n))
}

/// What the runtime says of a device.
#[derive(Debug)]
pub struct XdevProperties {
    name: String,
    serial: Vec<u8>,
}

impl XdevProperties {
    #[verifier::type_invariant]
    spec fn serial_is_terminated(self) -> bool {
        self.serial@.contains(0u8)
    }

    /// The device's name.
    pub closed spec fn spec_name(self) -> Seq<char> {
        self.name@
    }

    /// The buffer that starts with the device's serial number as a C string.
    pub closed spec fn spec_serial_buffer(self) -> Seq<u8> {
        self.serial@
    }

    /// Properties with the given name and serial number buffer, which has to
    /// hold a terminated C string.
    pub fn new(name: String, serial: Vec<u8>) -> (r: Self)
        requires
            serial@.contains(0u8),
        ensures
            r.spec_name() == name@,
            r.spec_serial_buffer() == serial@,
    {
        XdevProperties { name, serial }
    }

    /// The device's name.
    pub fn name(&self) -> (r: &str)
        ensures
            r@ == self.spec_name(),
    {
        self.name.as_str()
    }

    /// The device's serial number: the buffer up to its first NUL.
    pub fn serial(&self) -> (r: &[u8])
        ensures
            r@ == c_string(self.spec_serial_buffer()),
            first_nul_at(self.spec_serial_buffer(), r@.len() as int),
    {
        proof {
            use_type_invariant(self);
        }
        let mut n: usize = 0;
        while self.serial[n] != 0
            invariant
                n < self.serial.len(),
                self.serial@.contains(0u8),
                forall|j: int| 0 <= j < n ==> self.serial@[j] != 0,
            decreases self.serial@.len() - n,
        {
            n += 1;
        }
        assert(first_nul_at(self.serial@, n as int));
        vstd::slice::slice_subrange(self.serial.as_slice(), 0, n)
    }
}

/// A device that the runtime tracks.
#[derive(Debug)]
pub struct Xdev {
    /// The runtime's number for the device.
    pub id: u64,
    pub properties: XdevProperties,
    /// The handle of the space that follows the device, if it has one.
    pub space: Option<u64>,
}

/// Two values describe the same device if they have the same id.
impl PartialEq for Xdev {
    fn eq(&self, other: &Self) -> (r: bool) {
        self.id == other.id
    }
}

impl vstd::std_specs::cmp::PartialEqSpecImpl for Xdev {
    open spec fn obeys_eq_spec() -> bool {
        true
    }

    open spec fn eq_spec(&self, other: &Self) -> bool {
        self.id == other.id
    }
}

/// The lowercase form of `text`, as Unicode defines it.
pub uninterp spec fn lowercase(text: Seq<char>) -> Seq<char>;

/// `str::to_lowercase`: claims that the result is the lowercase form of `text`
/// and depends on nothing else.
#[verifier::external_body]
fn to_lowercase(text: &str) -> (r: String)
    ensures
        r@ == lowercase(text@),
{
    text.to_lowercase()
}

/// `part` stands in `text`, in one piece, from position `i` on.
pub open spec fn stands_at(text: Seq<char>, part: Seq<char>, i: int) -> bool {
    0 <= i <= text.len() - part.len() && text.subrange(i, i + part.len()) == part
}

/// `part` stands somewhere in `text`, in one piece.
pub open spec fn contains_text(text: Seq<char>, part: Seq<char>) -> bool {
    exists|i: int| stands_at(text, part, i)
}

/// `str::contains`: claims that the result tells whether some slice of `text`
/// equals `part`.
#[verifier::external_body]
fn str_contains(text: &str, part: &str) -> (r: bool)
    ensures
        r == contains_text(text@, part@),
{
    text.contains(part)
}

/// Whether a device with the given lowercase name calls itself a tracker.
pub open spec fn spec_is_tracker_name(lowercase_name: Seq<char>) -> bool {
    contains_text(lowercase_name, "tracker"@)
}

/// Whether a device with the given lowercase name calls itself a tracker.
pub fn is_tracker_name(lowercase_name: &str) -> (r: bool)
    ensures
        r == spec_is_tracker_name(lowercase_name@),
{
    str_contains(lowercase_name, "tracker")
}

impl Xdev {
    /// The device can be followed, and its name says that it is a tracker, in
    /// whatever case.
    pub open spec fn spec_is_generic_tracker(self) -> bool {
        self.space is Some && spec_is_tracker_name(lowercase(self.properties.spec_name()))
    }

    /// Whether the device can be followed and its name says that it is a
    /// tracker, in whatever case.
    pub fn is_generic_tracker(&self) -> (r: bool)
        ensures
            r == self.spec_is_generic_tracker(),
    {
        self.space.is_some() && is_tracker_name(to_lowercase(self.properties.name()).as_str())
    }
}

} // verus!
