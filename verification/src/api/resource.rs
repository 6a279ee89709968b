//! Identifiers, type tags and links.
use vstd::prelude::*;

verus! {

/// A 128-bit resource identifier, held as the integer whose big-endian bytes
/// are the sixteen bytes of the UUID.
pub type Uuid = u128;

/// The closed set of resource type tags.
#[derive(Debug, Clone, Copy, PartialEq, Eq, Structural, Hash)]
pub enum RType {
    AuthV1,
    BehaviorInstance,
    BehaviorScript,
    Bridge,
    BridgeHome,
    Button,
    Device,
    DevicePower,
    DeviceSoftwareUpdate,
    Entertainment,
    EntertainmentConfiguration,
    GeofenceClient,
    Geolocation,
    GroupedLight,
    GroupedLightLevel,
    GroupedMotion,
    Homekit,
    Light,
    LightLevel,
    Matter,
    Motion,
    PrivateGroup,
    PublicImage,
    RelativeRotary,
    Room,
    Scene,
    SmartScene,
    Taurus,
    Temperature,
    ZigbeeConnectivity,
    ZigbeeDeviceDiscovery,
    Zone,
}

/// A typed reference to a resource: its identifier and the type it is
/// expected to have.
#[derive(Debug, Clone, Copy, PartialEq, Eq, Structural, Hash)]
pub struct ResourceLink {
    pub rid: Uuid,
    pub rtype: RType,
}

impl ResourceLink {
    pub fn new(rid: Uuid, rtype: RType) -> (link: Self)
        ensures
            link == (ResourceLink { rid, rtype }),
    {
        ResourceLink { rid, rtype }
    }
}

/// What `uuid::Uuid::new_v5` returns for the namespace of ISO object
/// identifiers and the name `name`, as a 128-bit integer.
pub uninterp spec fn uuid_v5_oid(name: Seq<u8>) -> u128;

/// Calls `uuid::Uuid::new_v5` with `uuid::Uuid::NAMESPACE_OID`, and
/// `as_u128` on what it returns. Trusted: the identifier depends on the
/// name alone.
#[verifier::external_body]
fn new_v5_oid(name: &[u8]) -> (id: u128)
    ensures
        id == uuid_v5_oid(name@),
{
    uuid::Uuid::new_v5(&uuid::Uuid::NAMESPACE_OID, name).as_u128()
}

/// The identifier has the form of a random UUID: version 4, RFC variant.
pub open spec fn is_random_uuid(id: Uuid) -> bool {
    ((id >> 76) & 0xf) == 4 && ((id >> 62) & 0x3) == 2
}

/// A new random identifier: a UUID of version 4 in the variant of the RFC.
/// Its version and variant bits are fixed; the other 122 bits are drawn at
/// random, and nothing is known of them.
pub fn random_uuid() -> (id: Uuid)
    ensures
        is_random_uuid(id),
{
    new_v4()
}

/// Calls `uuid::Uuid::new_v4`, and `as_u128` on what it returns. Trusted:
/// the identifier is random but for its version bits, which say 4, and its
/// variant bits, which say RFC. The outside function sets both by masking
/// what it drew.
#[verifier::external_body]
pub(crate) fn new_v4() -> (id: u128)
    ensures
        is_random_uuid(id),
{
    uuid::Uuid::new_v4().as_u128()
}

/// The byte of `id` at `i`, counted from the most significant.
pub open spec fn uuid_byte(id: Uuid, i: int) -> u8 {
    ((id >> ((8 * (15 - i)) as u128)) & 0xff) as u8
}

/// The sixteen bytes of `id`, most significant first.
pub open spec fn uuid_bytes(id: Uuid) -> Seq<u8> {
    Seq::new(16, |i: int| uuid_byte(id, i))
}

/// The sixteen bytes of `id`, most significant first.
pub fn uuid_to_bytes(id: Uuid) -> (b: Vec<u8>)
    ensures
        b@ == uuid_bytes(id),
{
    let mut b: Vec<u8> = Vec::new();
    let mut i: u32 = 0;
    while i < 16
        invariant
            i <= 16,
            b@.len() == i,
            forall|k: int| 0 <= k < i ==> b@[k] == uuid_byte(id, k),
        decreases 16 - i,
    {
        let shift: u128 = (8 * (15 - i)) as u128;
        b.push(((id >> shift) & 0xff) as u8);
        i += 1;
    }
    assert(b@ =~= uuid_bytes(id));
    b
}

impl RType {
    /// The byte that stands for this type in the name of a deterministic
    /// identifier: its place in the list of types.
    pub open spec fn tag(self) -> u8 {
        match self {
            RType::AuthV1 => 0,
            RType::BehaviorInstance => 1,
            RType::BehaviorScript => 2,
            RType::Bridge => 3,
            RType::BridgeHome => 4,
            RType::Button => 5,
            RType::Device => 6,
            RType::DevicePower => 7,
            RType::DeviceSoftwareUpdate => 8,
            RType::Entertainment => 9,
            RType::EntertainmentConfiguration => 10,
            RType::GeofenceClient => 11,
            RType::Geolocation => 12,
            RType::GroupedLight => 13,
            RType::GroupedLightLevel => 14,
            RType::GroupedMotion => 15,
            RType::Homekit => 16,
            RType::Light => 17,
            RType::LightLevel => 18,
            RType::Matter => 19,
            RType::Motion => 20,
            RType::PrivateGroup => 21,
            RType::PublicImage => 22,
            RType::RelativeRotary => 23,
            RType::Room => 24,
            RType::Scene => 25,
            RType::SmartScene => 26,
            RType::Taurus => 27,
            RType::Temperature => 28,
            RType::ZigbeeConnectivity => 29,
            RType::ZigbeeDeviceDiscovery => 30,
            RType::Zone => 31,
        }
    }

    /// The byte that stands for this type.
    pub fn tag_byte(self) -> (b: u8)
        ensures
            b == self.tag(),
    {
        match self {
            RType::AuthV1 => 0,
            RType::BehaviorInstance => 1,
            RType::BehaviorScript => 2,
            RType::Bridge => 3,
            RType::BridgeHome => 4,
            RType::Button => 5,
            RType::Device => 6,
            RType::DevicePower => 7,
            RType::DeviceSoftwareUpdate => 8,
            RType::Entertainment => 9,
            RType::EntertainmentConfiguration => 10,
            RType::GeofenceClient => 11,
            RType::Geolocation => 12,
            RType::GroupedLight => 13,
            RType::GroupedLightLevel => 14,
            RType::GroupedMotion => 15,
            RType::Homekit => 16,
            RType::Light => 17,
            RType::LightLevel => 18,
            RType::Matter => 19,
            RType::Motion => 20,
            RType::PrivateGroup => 21,
            RType::PublicImage => 22,
            RType::RelativeRotary => 23,
            RType::Room => 24,
            RType::Scene => 25,
            RType::SmartScene => 26,
            RType::Taurus => 27,
            RType::Temperature => 28,
            RType::ZigbeeConnectivity => 29,
            RType::ZigbeeDeviceDiscovery => 30,
            RType::Zone => 31,
        }
    }

    /// The link to the resource of this type with the identifier `rid`.
    pub fn link_to(self, rid: Uuid) -> (link: ResourceLink)
        ensures
            link == (ResourceLink { rid, rtype: self }),
    {
        ResourceLink { rid, rtype: self }
    }

    /// The identifier that `deterministic` gives for this type and `seed`:
    /// the name-based UUID of the type's tag byte followed by the seed.
    pub open spec fn deterministic_id(self, seed: Seq<u8>) -> Uuid {
        uuid_v5_oid(seq![self.tag()] + seed)
    }

    /// A link of this type whose identifier depends on the type and the
    /// seed alone, so that it is the same on every run.
    pub fn deterministic(self, seed: &[u8]) -> (link: ResourceLink)
        ensures
            link == (ResourceLink { rid: self.deterministic_id(seed@), rtype: self }),
    {
        let mut name: Vec<u8> = Vec::new();
        name.push(self.tag_byte());
        let n = seed.len();
        let mut i: usize = 0;
        while i < n
            invariant
                n == seed@.len(),
                i <= n,
                name@ == seq![self.tag()] + seed@.subrange(0, i as int),
            decreases n - i,
        {
            name.push(seed[i]);
            i += 1;
            assert(name@ =~= seq![self.tag()] + seed@.subrange(0, i as int));
        }
        assert(seed@.subrange(0, n as int) =~= seed@);
        self.link_to(new_v5_oid(name.as_slice()))
    }
}

} // verus!
