use vstd::prelude::*;
use vstd::arithmetic::power2::pow2;
use uuid::Uuid;

verus! {

/// The `Uuid` type of the `uuid` crate, carried through verified code as an
/// opaque value.
#[verifier::external_type_specification]
#[verifier::external_body]
pub struct ExUuid(Uuid);

/// The UUID whose 128 bits, read big-endian, are `bits`: what `Uuid::from_u128`
/// returns for them.
pub uninterp spec fn uuid_from_bits(bits: u128) -> Uuid;

/// Lower-case hexadecimal digit of a value below sixteen.
pub open spec fn hex_char(d: int) -> char {
    seq!['0', '1', '2', '3', '4', '5', '6', '7', '8', '9', 'a', 'b', 'c', 'd', 'e', 'f'][d]
}

/// The `i`-th of the 32 hexadecimal digits of `bits`, counted from the most
/// significant one.
pub open spec fn nibble(bits: u128, i: int) -> int {
    (bits as int / pow2((4 * (31 - i)) as nat) as int) % 16
}

/// Hexadecimal digits `from..to` of `bits`.
pub open spec fn hex_run(bits: u128, from: int, to: int) -> Seq<char> {
    Seq::new((to - from) as nat, |k: int| hex_char(nibble(bits, from + k)))
}

/// The hyphenated form of a UUID: its 32 lower-case hexadecimal digits in
/// groups of 8, 4, 4, 4 and 12, joined by `-`.
pub open spec fn hyphenated_text(bits: u128) -> Seq<char> {
    hex_run(bits, 0, 8) + seq!['-'] + hex_run(bits, 8, 12) + seq!['-'] + hex_run(bits, 12, 16)
        + seq!['-'] + hex_run(bits, 16, 20) + seq!['-'] + hex_run(bits, 20, 32)
}

/// The version field of a UUID (the top nibble of its seventh byte).
pub open spec fn version_of(bits: u128) -> int {
    (bits as int / pow2(76) as int) % 16
}

/// The two top bits of a UUID's ninth byte; `0b10` marks the RFC 9562 variant.
pub open spec fn variant_bits_of(bits: u128) -> int {
    (bits as int / pow2(62) as int) % 4
}

/// Calls `Uuid::as_u128`. Claims that the bits returned give back `u` under
/// `Uuid::from_u128`, and that no other bits do: the source reads the 16 bytes
/// big-endian in one direction and writes them big-endian in the other.
#[verifier::external_body]
fn uuid_bits(u: &Uuid) -> (bits: u128)
    ensures
        uuid_from_bits(bits) == *u,
        forall|other: u128| uuid_from_bits(other) == *u ==> other == bits,
{
    u.as_u128()
}

/// Calls `Uuid::from_u128`; the result is named `uuid_from_bits(bits)`.
#[verifier::external_body]
fn uuid_of_bits(bits: u128) -> (u: Uuid)
    ensures
        u == uuid_from_bits(bits),
{
    Uuid::from_u128(bits)
}

/// Formats `Uuid::from_u128(bits)` with its `Display` impl, which the source
/// routes to the lower-case hyphenated encoding. Claims the text is
/// `hyphenated_text(bits)`.
#[verifier::external_body]
fn uuid_text(bits: u128) -> (text: String)
    ensures
        text@ == hyphenated_text(bits),
{
    format!("{}", Uuid::from_u128(bits))
}

/// Calls `Uuid::new_v4` and reads its bits. The bits are random; the source
/// masks in the version nibble `4` and the variant bits `0b10`, and that is
/// all that is claimed of them.
#[verifier::external_body]
fn random_v4_bits() -> (bits: u128)
    ensures
        version_of(bits) == 4,
        variant_bits_of(bits) == 2,
{
    Uuid::new_v4().as_u128()
}

/// Opaque, strongly-typed trip identifier.
///
/// Wraps a UUID, held as its 128 bits, so that `TripId` and other ID types
/// can't be accidentally mixed at compile time.
#[derive(Debug, Clone, Copy, PartialEq, Eq, Hash, Structural)]
pub struct TripId {
    bits: u128,
}

impl TripId {
    /// The 128 bits of the UUID, read big-endian.
    pub closed spec fn bits(self) -> u128 {
        self.bits
    }

    /// The UUID this identifier wraps.
    pub open spec fn uuid(self) -> Uuid {
        uuid_from_bits(self.bits())
    }

    /// Creates a new random TripId: a version-4 UUID of the RFC 9562 variant.
    pub fn new() -> (id: TripId)
        ensures
            version_of(id.bits()) == 4,
            variant_bits_of(id.bits()) == 2,
    {
        TripId { bits: random_v4_bits() }
    }

    /// Returns the underlying UUID.
    pub fn as_uuid(self) -> (u: Uuid)
        ensures
            u == self.uuid(),
    {
        uuid_of_bits(self.bits)
    }

    /// The identifier in the UUID's hyphenated text form, e.g.
    /// `00000000-0000-0000-0000-000000000000`.
    pub fn to_string(&self) -> (text: String)
        ensures
            text@ == hyphenated_text(self.bits()),
    {
        uuid_text(self.bits)
    }
}

impl vstd::std_specs::convert::FromSpecImpl<Uuid> for TripId {
    open spec fn obeys_from_spec() -> bool {
        true
    }

    /// The identifier of the bits that `Uuid::from_u128` maps to `id`.
    closed spec fn from_spec(id: Uuid) -> TripId {
        TripId { bits: choose|bits: u128| uuid_from_bits(bits) == id }
    }
}

impl From<Uuid> for TripId {
    /// Wraps a UUID. Unwrapping the result gives `id` back, and every
    /// identifier that wraps `id` is the result, so that
    /// `TripId::from(t.as_uuid()) == t` for every identifier `t`.
    fn from(id: Uuid) -> (res: TripId)
        ensures
            res.uuid() == id,
            forall|other: TripId| other.uuid() == id ==> other == res,
    {
        TripId { bits: uuid_bits(&id) }
    }
}

} // verus!
