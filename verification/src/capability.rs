//! Capability catalog and builders for AppContainer and LPAC scenarios.
//!
//! AppContainer capabilities describe which system resources a sandboxed
//! process may access. The friendly names published for the common
//! capabilities are listed in [`CapabilityName`]; resolving a name to its
//! derived capability SID is the job of the operating system, so resolution
//! results enter this crate through a [`CapabilityResolver`] table filled by
//! the native side. Everything downstream of that table — lookups, the
//! catalog, the builder, and typo suggestions — is decided and verified here.

use vstd::prelude::*;

use crate::error::AcError;
use crate::sid::{AppContainerSid, SidAndAttributes};

verus! {

/// Attribute flag marking a capability SID as enabled.
pub const SE_GROUP_ENABLED: u32 = 0x0000_0004;

/// IEEE-754 bit pattern of the similarity acceptance floor (80 percent):
/// a suggestion is only offered when its score reaches this value.
pub const SUGGESTION_FLOOR_BITS: u64 = 0x3FE9_9999_9999_999A;

/// IEEE-754 bit pattern of a full similarity score of one.
pub const SIMILARITY_ONE_BITS: u64 = 0x3FF0_0000_0000_0000;

/// The friendly names of the common AppContainer capabilities.
#[derive(Clone, Copy, Debug, PartialEq, Eq, Hash, Structural)]
#[non_exhaustive]
pub enum CapabilityName {
    InternetClient,
    InternetClientServer,
    PrivateNetworkClientServer,
    EnterpriseAuthentication,
    SharedUserCertificates,
    UserAccountInformation,
    DocumentsLibrary,
    PicturesLibrary,
    VideosLibrary,
    MusicLibrary,
    Appointments,
    Contacts,
    PhoneCall,
    VoipCall,
    Location,
    Microphone,
    Webcam,
    LowLevelDevices,
    HumanInterfaceDevice,
    InputInjectionBrokered,
    RemovableStorage,
    RegistryRead,
    LpacCom,
}

/// Back-compat alias for the previous enum name.
pub type KnownCapability = CapabilityName;

/// The friendly string of each capability name.
pub open spec fn cap_name_str(c: CapabilityName) -> Seq<char> {
    match c {
        CapabilityName::InternetClient => "internetClient"@,
        CapabilityName::InternetClientServer => "internetClientServer"@,
        CapabilityName::PrivateNetworkClientServer => "privateNetworkClientServer"@,
        CapabilityName::EnterpriseAuthentication => "enterpriseAuthentication"@,
        CapabilityName::SharedUserCertificates => "sharedUserCertificates"@,
        CapabilityName::UserAccountInformation => "userAccountInformation"@,
        CapabilityName::DocumentsLibrary => "documentsLibrary"@,
        CapabilityName::PicturesLibrary => "picturesLibrary"@,
        CapabilityName::VideosLibrary => "videosLibrary"@,
        CapabilityName::MusicLibrary => "musicLibrary"@,
        CapabilityName::Appointments => "appointments"@,
        CapabilityName::Contacts => "contacts"@,
        CapabilityName::PhoneCall => "phoneCall"@,
        CapabilityName::VoipCall => "voipCall"@,
        CapabilityName::Location => "location"@,
        CapabilityName::Microphone => "microphone"@,
        CapabilityName::Webcam => "webcam"@,
        CapabilityName::LowLevelDevices => "lowLevelDevices"@,
        CapabilityName::HumanInterfaceDevice => "humanInterfaceDevice"@,
        CapabilityName::InputInjectionBrokered => "inputInjectionBrokered"@,
        CapabilityName::RemovableStorage => "removableStorage"@,
        CapabilityName::RegistryRead => "registryRead"@,
        CapabilityName::LpacCom => "lpacCom"@,
    }
}

impl CapabilityName {
    /// The friendly string of this capability name.
    pub fn as_str(self) -> (r: &'static str)
        ensures
            r@ == cap_name_str(self),
    {
        match self {
            CapabilityName::InternetClient => "internetClient",
            CapabilityName::InternetClientServer => "internetClientServer",
            CapabilityName::PrivateNetworkClientServer => "privateNetworkClientServer",
            CapabilityName::EnterpriseAuthentication => "enterpriseAuthentication",
            CapabilityName::SharedUserCertificates => "sharedUserCertificates",
            CapabilityName::UserAccountInformation => "userAccountInformation",
            CapabilityName::DocumentsLibrary => "documentsLibrary",
            CapabilityName::PicturesLibrary => "picturesLibrary",
            CapabilityName::VideosLibrary => "videosLibrary",
            CapabilityName::MusicLibrary => "musicLibrary",
            CapabilityName::Appointments => "appointments",
            CapabilityName::Contacts => "contacts",
            CapabilityName::PhoneCall => "phoneCall",
            CapabilityName::VoipCall => "voipCall",
            CapabilityName::Location => "location",
            CapabilityName::Microphone => "microphone",
            CapabilityName::Webcam => "webcam",
            CapabilityName::LowLevelDevices => "lowLevelDevices",
            CapabilityName::HumanInterfaceDevice => "humanInterfaceDevice",
            CapabilityName::InputInjectionBrokered => "inputInjectionBrokered",
            CapabilityName::RemovableStorage => "removableStorage",
            CapabilityName::RegistryRead => "registryRead",
            CapabilityName::LpacCom => "lpacCom",
        }
    }
}

/// Every capability name, in catalog order.
#[verifier::opaque]
pub open spec fn all_names() -> Seq<CapabilityName> {
    seq![
        CapabilityName::InternetClient,
        CapabilityName::InternetClientServer,
        CapabilityName::PrivateNetworkClientServer,
        CapabilityName::EnterpriseAuthentication,
        CapabilityName::SharedUserCertificates,
        CapabilityName::UserAccountInformation,
        CapabilityName::DocumentsLibrary,
        CapabilityName::PicturesLibrary,
        CapabilityName::VideosLibrary,
        CapabilityName::MusicLibrary,
        CapabilityName::Appointments,
        CapabilityName::Contacts,
        CapabilityName::PhoneCall,
        CapabilityName::VoipCall,
        CapabilityName::Location,
        CapabilityName::Microphone,
        CapabilityName::Webcam,
        CapabilityName::LowLevelDevices,
        CapabilityName::HumanInterfaceDevice,
        CapabilityName::InputInjectionBrokered,
        CapabilityName::RemovableStorage,
        CapabilityName::RegistryRead,
        CapabilityName::LpacCom,
    ]
}

/// Every capability name, in catalog order.
pub fn all_capability_names() -> (r: Vec<CapabilityName>)
    ensures
        r@ == all_names(),
{
    let mut v: Vec<CapabilityName> = Vec::new();
    v.push(CapabilityName::InternetClient);
    v.push(CapabilityName::InternetClientServer);
    v.push(CapabilityName::PrivateNetworkClientServer);
    v.push(CapabilityName::EnterpriseAuthentication);
    v.push(CapabilityName::SharedUserCertificates);
    v.push(CapabilityName::UserAccountInformation);
    v.push(CapabilityName::DocumentsLibrary);
    v.push(CapabilityName::PicturesLibrary);
    v.push(CapabilityName::VideosLibrary);
    v.push(CapabilityName::MusicLibrary);
    v.push(CapabilityName::Appointments);
    v.push(CapabilityName::Contacts);
    v.push(CapabilityName::PhoneCall);
    v.push(CapabilityName::VoipCall);
    v.push(CapabilityName::Location);
    v.push(CapabilityName::Microphone);
    v.push(CapabilityName::Webcam);
    v.push(CapabilityName::LowLevelDevices);
    v.push(CapabilityName::HumanInterfaceDevice);
    v.push(CapabilityName::InputInjectionBrokered);
    v.push(CapabilityName::RemovableStorage);
    v.push(CapabilityName::RegistryRead);
    v.push(CapabilityName::LpacCom);
    proof {
        reveal(all_names);
        assert(v@ =~= all_names());
    }
    v
}

/// The friendly strings of the given capability names, in order.
pub fn known_caps_to_named(caps: &[CapabilityName]) -> (r: Vec<&'static str>)
    ensures
        r@.len() == caps@.len(),
        forall|i: int| 0 <= i < caps@.len() ==> #[trigger] r@[i]@ == cap_name_str(caps@[i]),
{
    let mut r: Vec<&'static str> = Vec::new();
    let mut k: usize = 0;
    while k < caps.len()
        invariant
            k <= caps@.len(),
            r@.len() == k,
            forall|i: int| 0 <= i < k ==> #[trigger] r@[i]@ == cap_name_str(caps@[i]),
        decreases caps@.len() - k,
    {
        r.push(caps[k].as_str());
        k = k + 1;
    }
    r
}

/// The similarity score of two strings, as the IEEE-754 bit pattern of a
/// double in the closed interval from zero to one. Nonnegative doubles order
/// the same way as their bit patterns, so comparing these values as integers
/// compares the underlying scores.
pub uninterp spec fn similarity_bits(a: Seq<char>, b: Seq<char>) -> u64;

/// Relies on strsim::jaro_winkler: the score is a pure function of the two
/// strings and lies between zero and one; it is returned as its IEEE-754 bit
/// pattern, which for nonnegative doubles preserves the numeric order.
#[verifier::external_body]
fn similarity_bits_of(a: &str, b: &str) -> (r: u64)
    ensures
        r == similarity_bits(a@, b@),
        r <= SIMILARITY_ONE_BITS,
{
    strsim::jaro_winkler(a, b).to_bits()
}

/// The similarity of `name` to the catalog entry at index `i`.
pub open spec fn sim_to(name: Seq<char>, i: int) -> u64 {
    similarity_bits(name, cap_name_str(all_names()[i]))
}

/// What `suggest_capability_name` promises: `None` exactly when no catalog
/// name reaches the acceptance floor; otherwise the first catalog name with
/// the highest similarity to the input.
pub open spec fn suggestion_ok(name: Seq<char>, r: Option<&'static str>) -> bool {
    match r {
        None => forall|i: int|
            0 <= i < all_names().len() ==> #[trigger] sim_to(name, i) < SUGGESTION_FLOOR_BITS,
        Some(c) => exists|i: int|
            {
                &&& 0 <= i < all_names().len()
                &&& c@ == cap_name_str(all_names()[i])
                &&& #[trigger] sim_to(name, i) >= SUGGESTION_FLOOR_BITS
                &&& forall|j: int| 0 <= j < i ==> #[trigger] sim_to(name, j) < sim_to(name, i)
                &&& forall|j: int|
                    i <= j < all_names().len() ==> #[trigger] sim_to(name, j) <= sim_to(name, i)
            },
    }
}

/// Offers the catalog name closest to `name`, when its similarity reaches
/// the acceptance floor.
pub fn suggest_capability_name(name: &str) -> (r: Option<&'static str>)
    ensures
        suggestion_ok(name@, r),
{
    let names = all_capability_names();
    let mut best_bits: u64 = 0;
    let mut best: Option<&'static str> = None;
    let ghost mut best_idx: int = 0;
    let mut k: usize = 0;
    while k < names.len()
        invariant
            names@ == all_names(),
            k <= names@.len(),
            best is None ==> best_bits == 0 && forall|j: int|
                0 <= j < k ==> #[trigger] sim_to(name@, j) == 0,
            best matches Some(c) ==> {
                &&& 0 <= best_idx < k
                &&& c@ == cap_name_str(all_names()[best_idx])
                &&& best_bits == sim_to(name@, best_idx)
                &&& best_bits > 0
                &&& forall|j: int|
                    0 <= j < best_idx ==> #[trigger] sim_to(name@, j) < best_bits
                &&& forall|j: int| best_idx <= j < k ==> #[trigger] sim_to(name@, j) <= best_bits
            },
        decreases names@.len() - k,
    {
        let cand = names[k].as_str();
        let bits = similarity_bits_of(name, cand);
        if bits > best_bits {
            best_bits = bits;
            best = Some(cand);
            proof {
                best_idx = k as int;
            }
        }
        k = k + 1;
    }
    if best_bits < SUGGESTION_FLOOR_BITS {
        None
    } else {
        best
    }
}

/// Compares two string slices character by character.
pub fn str_eq(a: &str, b: &str) -> (r: bool)
    ensures
        r == (a@ == b@),
{
    let n = a.unicode_len();
    let m = b.unicode_len();
    if n != m {
        return false;
    }
    let mut i: usize = 0;
    while i < n
        invariant
            n == a@.len(),
            n == b@.len(),
            i <= n,
            forall|k: int| 0 <= k < i ==> a@[k] == b@[k],
        decreases n - i,
    {
        if a.get_char(i) != b.get_char(i) {
            return false;
        }
        i = i + 1;
    }
    proof {
        assert(a@ =~= b@);
    }
    true
}

/// The table of resolved capability names: each friendly name the native
/// side has derived, paired with the SDDL string of its capability SID.
///
/// The operating system alone can derive a capability SID from a name, so
/// the native side fills this table once and hands it to every function that
/// resolves names. Lookup order, determinism, and the attribute flags of
/// every resolution are decided here.
pub struct CapabilityResolver {
    entries: Vec<(String, String)>,
}

/// First-match resolution of `name` in `entries[i..]`.
pub closed spec fn resolve_from(entries: Seq<(String, String)>, name: Seq<char>, i: int) -> Option<
    Seq<char>,
>
    decreases entries.len() - i,
        when 0 <= i <= entries.len()
{
    if i == entries.len() {
        None
    } else if entries[i].0@ == name {
        Some(entries[i].1@)
    } else {
        resolve_from(entries, name, i + 1)
    }
}

impl CapabilityResolver {
    /// The SDDL string this table resolves `name` to, if any.
    pub closed spec fn spec_resolve(&self, name: Seq<char>) -> Option<Seq<char>> {
        resolve_from(self.entries@, name, 0)
    }

    /// Every registered SDDL string follows the SID grammar.
    pub closed spec fn wf(&self) -> bool {
        forall|i: int|
            0 <= i < self.entries@.len() ==> crate::sid::valid_sddl(#[trigger] self.entries@[i].1@)
    }

    /// An empty table: nothing resolves.
    pub fn new() -> (r: CapabilityResolver)
        ensures
            r.wf(),
            forall|n: Seq<char>| r.spec_resolve(n) is None,
    {
        CapabilityResolver { entries: Vec::new() }
    }

    /// Registers one derived capability SID under its friendly name. The
    /// SDDL string is validated first; a name registered earlier keeps its
    /// original resolution.
    pub fn register(&mut self, name: &str, sddl: &str) -> (r: Result<(), AcError>)
        requires
            old(self).wf(),
        ensures
            final(self).wf(),
            r is Ok <==> crate::sid::valid_sddl(sddl@),
            r matches Err(e) ==> e matches AcError::InvalidSid(d) && d@ == sddl@ && *final(self)
                == *old(self),
            r is Ok ==> forall|n: Seq<char>|
                final(self).spec_resolve(n) == (if old(self).spec_resolve(n) is Some {
                    old(self).spec_resolve(n)
                } else if n == name@ {
                    Some(sddl@)
                } else {
                    None::<Seq<char>>
                }),
    {
        if !crate::sid::is_valid_sddl_str(sddl) {
            return Err(AcError::InvalidSid(sddl.to_owned()));
        }
        let ghost pre = self.entries@;
        let entry = (name.to_owned(), sddl.to_owned());
        let ghost p = entry;
        self.entries.push(entry);
        proof {
            assert(self.entries@ =~= pre.push(p));
            assert forall|n: Seq<char>|
                self.spec_resolve(n) == (if resolve_from(pre, n, 0) is Some {
                    resolve_from(pre, n, 0)
                } else if n == name@ {
                    Some(sddl@)
                } else {
                    None::<Seq<char>>
                }) by {
                lemma_resolve_push(pre, p, n, 0);
            }
        }
        Ok(())
    }

    /// Resolves a friendly name to its capability SID with the enabled
    /// attribute set.
    pub fn resolve(&self, name: &str) -> (r: Option<SidAndAttributes>)
        ensures
            resolve_post(*self, name@, r),
    {
        let mut k: usize = 0;
        while k < self.entries.len()
            invariant
                k <= self.entries@.len(),
                self.spec_resolve(name@) == resolve_from(self.entries@, name@, k as int),
            decreases self.entries@.len() - k,
        {
            if str_eq(self.entries[k].0.as_str(), name) {
                return Some(
                    SidAndAttributes {
                        sid_sddl: self.entries[k].1.clone(),
                        attributes: SE_GROUP_ENABLED,
                    },
                );
            }
            k = k + 1;
        }
        None
    }
}

/// What `CapabilityResolver::resolve` promises of its result.
pub open spec fn resolve_post(r: CapabilityResolver, name: Seq<char>, res: Option<
    SidAndAttributes,
>) -> bool {
    match res {
        None => r.spec_resolve(name) is None,
        Some(sa) => r.spec_resolve(name) == Some(sa.sid_sddl@) && sa.attributes
            == SE_GROUP_ENABLED,
    }
}

/// Resolution is deterministic: two resolutions of the same name through the
/// same table return the same capability SID, and any resolved capability
/// carries the enabled attribute bit.
pub proof fn lemma_resolution_deterministic(
    r: CapabilityResolver,
    name: Seq<char>,
    a: Option<SidAndAttributes>,
    b: Option<SidAndAttributes>,
)
    requires
        resolve_post(r, name, a),
        resolve_post(r, name, b),
    ensures
        a matches Some(sa) ==> b matches Some(sb) && sa.sid_sddl@ == sb.sid_sddl@ && sa.attributes
            == sb.attributes,
        a is None ==> b is None,
        a matches Some(sa) ==> sa.attributes & SE_GROUP_ENABLED == SE_GROUP_ENABLED,
{
    assert(0x4u32 & 0x4u32 == 0x4u32) by (bit_vector);
}

/// Pushing an entry changes resolution only for names not yet resolved.
proof fn lemma_resolve_push(entries: Seq<(String, String)>, p: (String, String), n: Seq<char>, i: int)
    requires
        0 <= i <= entries.len(),
    ensures
        resolve_from(entries.push(p), n, i) == (if resolve_from(entries, n, i) is Some {
            resolve_from(entries, n, i)
        } else if n == p.0@ {
            Some(p.1@)
        } else {
            None::<Seq<char>>
        }),
    decreases entries.len() - i,
{
    let pushed = entries.push(p);
    assert(pushed.len() == entries.len() + 1);
    if i < entries.len() {
        assert(pushed[i] == entries[i]);
        if entries[i].0@ != n {
            lemma_resolve_push(entries, p, n, i + 1);
        }
    } else {
        assert(pushed[i] == p);
        if n == p.0@ {
            assert(resolve_from(pushed, n, i) == Some(p.1@));
        } else {
            assert(resolve_from(pushed, n, i) == resolve_from(pushed, n, i + 1));
            assert(resolve_from(pushed, n, i + 1) is None);
        }
    }
}

/// A resolved SDDL string follows the SID grammar.
pub proof fn lemma_resolved_valid(r: CapabilityResolver, name: Seq<char>)
    requires
        r.wf(),
        r.spec_resolve(name) is Some,
    ensures
        crate::sid::valid_sddl(r.spec_resolve(name).unwrap()),
{
    lemma_resolve_from_valid(r, name, 0);
}

proof fn lemma_resolve_from_valid(r: CapabilityResolver, name: Seq<char>, i: int)
    requires
        r.wf(),
        0 <= i <= r.entries@.len(),
        resolve_from(r.entries@, name, i) is Some,
    ensures
        crate::sid::valid_sddl(resolve_from(r.entries@, name, i).unwrap()),
    decreases r.entries@.len() - i,
{
    if i < r.entries@.len() && r.entries@[i].0@ != name {
        lemma_resolve_from_valid(r, name, i + 1);
    }
}

/// The views of a sequence of string slices.
pub open spec fn strs_view(names: Seq<&str>) -> Seq<Seq<char>> {
    Seq::new(names.len(), |i: int| names[i]@)
}

/// The friendly strings of a sequence of capability names.
pub open spec fn cap_names_view(names: Seq<CapabilityName>) -> Seq<Seq<char>> {
    Seq::new(names.len(), |i: int| cap_name_str(names[i]))
}

/// Every name in the list resolves through the table.
pub open spec fn all_resolvable(r: CapabilityResolver, names: Seq<Seq<char>>) -> bool {
    forall|i: int| 0 <= i < names.len() ==> r.spec_resolve(#[trigger] names[i]) is Some
}

/// `v` holds, in order, the resolution of every name in the list, each with
/// the enabled attribute bit.
pub open spec fn resolved_caps_ok(
    r: CapabilityResolver,
    names: Seq<Seq<char>>,
    v: Seq<SidAndAttributes>,
) -> bool {
    &&& v.len() == names.len()
    &&& forall|i: int|
        0 <= i < names.len() ==> r.spec_resolve(#[trigger] names[i]) == Some(v[i].sid_sddl@)
    &&& forall|i: int| 0 <= i < v.len() ==> #[trigger] v[i].attributes == SE_GROUP_ENABLED
}

/// `e` reports the first name in the list that the table cannot resolve,
/// with a suggestion meeting the acceptance floor when one exists.
pub open spec fn unknown_capability_err(
    r: CapabilityResolver,
    names: Seq<Seq<char>>,
    e: AcError,
) -> bool {
    exists|i: int|
        {
            &&& 0 <= i < names.len()
            &&& r.spec_resolve(#[trigger] names[i]) is None
            &&& forall|j: int| 0 <= j < i ==> r.spec_resolve(#[trigger] names[j]) is Some
            &&& e matches AcError::UnknownCapability { name, suggestion } && name@ == names[i]
                && suggestion_ok(names[i], suggestion)
        }
}

/// Resolves each named capability through the table, in order; the first
/// unresolvable name aborts the whole derivation.
pub fn derive_named_capability_sids(resolver: &CapabilityResolver, names: &[&str]) -> (r: Result<
    Vec<SidAndAttributes>,
    AcError,
>)
    ensures
        r is Ok <==> all_resolvable(*resolver, strs_view(names@)),
        r matches Ok(v) ==> resolved_caps_ok(*resolver, strs_view(names@), v@),
        r matches Err(e) ==> unknown_capability_err(*resolver, strs_view(names@), e),
{
    let mut out: Vec<SidAndAttributes> = Vec::new();
    let mut k: usize = 0;
    while k < names.len()
        invariant
            k <= names@.len(),
            out@.len() == k,
            forall|i: int|
                0 <= i < k ==> resolver.spec_resolve(#[trigger] strs_view(names@)[i]) == Some(
                    out@[i].sid_sddl@,
                ),
            forall|i: int| 0 <= i < k ==> #[trigger] out@[i].attributes == SE_GROUP_ENABLED,
        decreases names@.len() - k,
    {
        let name = names[k];
        proof {
            assert(strs_view(names@)[k as int] == name@);
        }
        match resolver.resolve(name) {
            Some(sa) => {
                out.push(sa);
            },
            None => {
                let err = AcError::UnknownCapability {
                    name: name.to_owned(),
                    suggestion: suggest_capability_name(name),
                };
                proof {
                    let sv = strs_view(names@);
                    assert(resolver.spec_resolve(sv[k as int]) is None);
                    assert(!all_resolvable(*resolver, sv));
                }
                return Err(err);
            },
        }
        k = k + 1;
    }
    Ok(out)
}

/// One resolved capability: a friendly name joined with its derived SID.
#[derive(Debug, PartialEq, Eq)]
pub struct Capability {
    name: CapabilityName,
    sid: SidAndAttributes,
}

impl Clone for Capability {
    fn clone(&self) -> (r: Self)
        ensures
            r == *self,
    {
        Capability { name: self.name, sid: self.sid.clone() }
    }
}

impl Capability {
    /// The friendly name of this capability.
    pub closed spec fn spec_name(&self) -> CapabilityName {
        self.name
    }

    /// The derived SID of this capability.
    pub closed spec fn spec_sid(&self) -> SidAndAttributes {
        self.sid
    }

    /// The friendly name of this capability.
    pub fn name(&self) -> (r: CapabilityName)
        ensures
            r == self.spec_name(),
    {
        self.name
    }

    /// The derived SID of this capability.
    pub fn sid(&self) -> (r: &SidAndAttributes)
        ensures
            *r == self.spec_sid(),
    {
        &self.sid
    }

    /// Resolves `friendly` through a full catalog built from the table.
    #[verifier::rlimit(40)]
    pub fn try_from_str(resolver: &CapabilityResolver, friendly: &str) -> (r: Result<
        Capability,
        AcError,
    >)
        requires
            resolver.wf(),
        ensures
            r is Ok <==> all_resolvable(*resolver, cap_names_view(all_names())) && (exists|i: int|
                0 <= i < all_names().len() && cap_name_str(#[trigger] all_names()[i]) == friendly@),
            r matches Ok(c) ==> {
                &&& exists|i: int|
                    0 <= i < all_names().len() && #[trigger] cap_name_str(all_names()[i])
                        == friendly@ && c.spec_name() == all_names()[i]
                &&& resolver.spec_resolve(friendly@) == Some(c.spec_sid().sid_sddl@)
                &&& c.spec_sid().attributes == SE_GROUP_ENABLED
            },
            r matches Err(e) ==> e matches AcError::UnknownCapability { name, suggestion },
    {
        let catalog = CapabilityCatalog::new(resolver)?;
        Self::try_from_catalog(&catalog, friendly)
    }

    /// Resolves `friendly` against an already-built catalog.
    pub fn try_from_catalog(catalog: &CapabilityCatalog, friendly: &str) -> (r: Result<
        Capability,
        AcError,
    >)
        ensures
            r is Ok <==> (exists|i: int|
                0 <= i < catalog.spec_caps().len() && cap_name_str(
                    (#[trigger] catalog.spec_caps()[i]).spec_name(),
                ) == friendly@),
            r matches Ok(c) ==> exists|i: int|
                0 <= i < catalog.spec_caps().len() && #[trigger] catalog.spec_caps()[i] == c
                    && cap_name_str(c.spec_name()) == friendly@,
            r matches Err(e) ==> e matches AcError::UnknownCapability { name, suggestion } && name@
                == friendly@ && suggestion_ok(friendly@, suggestion),
    {
        match catalog.lookup(friendly) {
            Ok(c) => Ok(c.clone()),
            Err(e) => Err(e),
        }
    }
}

/// A catalog of resolved capabilities, queried by name, friendly string, or
/// SID string.
pub struct CapabilityCatalog {
    caps: Vec<Capability>,
}

impl CapabilityCatalog {
    /// The resolved capabilities this catalog holds.
    pub closed spec fn spec_caps(&self) -> Seq<Capability> {
        self.caps@
    }

    /// Catalog well-formedness: one entry per name, each enabled and with a
    /// grammatical SID string.
    pub open spec fn wf(&self) -> bool {
        &&& forall|i: int|
            0 <= i < self.spec_caps().len() ==> (#[trigger] self.spec_caps()[i]).spec_sid().attributes
                == SE_GROUP_ENABLED
        &&& forall|i: int|
            0 <= i < self.spec_caps().len() ==> crate::sid::valid_sddl(
                (#[trigger] self.spec_caps()[i]).spec_sid().sid_sddl@,
            )
        &&& forall|i: int, j: int|
            0 <= i < j < self.spec_caps().len() ==> (#[trigger] self.spec_caps()[i]).spec_name() != (
            #[trigger] self.spec_caps()[j]).spec_name()
    }

    /// Builds the catalog of every known capability name.
    pub fn new(resolver: &CapabilityResolver) -> (r: Result<CapabilityCatalog, AcError>)
        requires
            resolver.wf(),
        ensures
            r is Ok <==> all_resolvable(*resolver, cap_names_view(all_names())),
            r matches Ok(cat) ==> cat.wf() && catalog_covers(*resolver, all_names(), cat),
            r matches Err(e) ==> unknown_capability_err(*resolver, cap_names_view(all_names()), e),
    {
        let names = all_capability_names();
        Self::from_names(resolver, names.as_slice())
    }

    /// Builds a catalog of the given names; duplicates collapse to their
    /// first occurrence, and the first unresolvable name aborts the build.
    #[verifier::rlimit(40)]
    pub fn from_names(resolver: &CapabilityResolver, names: &[CapabilityName]) -> (r: Result<
        CapabilityCatalog,
        AcError,
    >)
        requires
            resolver.wf(),
        ensures
            r is Ok <==> all_resolvable(*resolver, cap_names_view(names@)),
            r matches Ok(cat) ==> cat.wf() && catalog_covers(*resolver, names@, cat),
            r matches Err(e) ==> unknown_capability_err(*resolver, cap_names_view(names@), e),
    {
        let mut caps: Vec<Capability> = Vec::new();
        let mut k: usize = 0;
        while k < names.len()
            invariant
                resolver.wf(),
                k <= names@.len(),
                forall|i: int|
                    0 <= i < caps@.len() ==> (#[trigger] caps@[i]).spec_sid().attributes
                        == SE_GROUP_ENABLED,
                forall|i: int|
                    0 <= i < caps@.len() ==> crate::sid::valid_sddl(
                        (#[trigger] caps@[i]).spec_sid().sid_sddl@,
                    ),
                forall|i: int, j: int|
                    0 <= i < j < caps@.len() ==> (#[trigger] caps@[i]).spec_name() != (
                    #[trigger] caps@[j]).spec_name(),
                forall|i: int|
                    0 <= i < caps@.len() ==> resolver.spec_resolve(
                        cap_name_str((#[trigger] caps@[i]).spec_name()),
                    ) == Some(caps@[i].spec_sid().sid_sddl@),
                forall|j: int|
                    0 <= j < k ==> resolver.spec_resolve(
                        #[trigger] cap_names_view(names@)[j],
                    ) is Some,
                forall|j: int| 0 <= j < k ==> caps_contain(caps@, #[trigger] names@[j]),
                forall|i: int|
                    0 <= i < caps@.len() ==> name_among(
                        (#[trigger] caps@[i]).spec_name(),
                        names@,
                        k as int,
                    ),
            decreases names@.len() - k,
        {
            let name = names[k];
            proof {
                assert(cap_names_view(names@)[k as int] == cap_name_str(name));
            }
            if !contains_name(&caps, name) {
                let name_str = name.as_str();
                match resolver.resolve(name_str) {
                    Some(sa) => {
                        proof {
                            lemma_resolved_valid(*resolver, cap_name_str(name));
                        }
                        let ghost pre = caps@;
                        let cap = Capability { name, sid: sa };
                        let ghost capg = cap;
                        caps.push(cap);
                        proof {
                            assert(caps@ == pre.push(capg));
                            assert(caps@[pre.len() as int] == capg);
                            assert forall|j: int| 0 <= j < k + 1 implies caps_contain(
                                caps@,
                                #[trigger] names@[j],
                            ) by {
                                if j < k {
                                    lemma_caps_contain_push(pre, capg, names@[j]);
                                } else {
                                    assert(caps@[pre.len() as int].spec_name() == names@[j]);
                                }
                            }
                            assert forall|i: int| 0 <= i < caps@.len() implies name_among(
                                (#[trigger] caps@[i]).spec_name(),
                                names@,
                                k + 1,
                            ) by {
                                if i < pre.len() {
                                    assert(caps@[i] == pre[i]);
                                    lemma_name_among_widen(pre[i].spec_name(), names@, k as int, k + 1);
                                } else {
                                    assert(names@[k as int] == caps@[i].spec_name());
                                }
                            }
                        }
                    },
                    None => {
                        let err = AcError::UnknownCapability {
                            name: name_str.to_owned(),
                            suggestion: suggest_capability_name(name_str),
                        };
                        proof {
                            let cnv = cap_names_view(names@);
                            assert(resolver.spec_resolve(cnv[k as int]) is None);
                            assert(!all_resolvable(*resolver, cnv));
                        }
                        return Err(err);
                    },
                }
            } else {
                proof {
                    let i = choose|i: int|
                        0 <= i < caps@.len() && (#[trigger] caps@[i]).spec_name() == name;
                    assert(resolver.spec_resolve(cap_name_str(caps@[i].spec_name())) == Some(
                        caps@[i].spec_sid().sid_sddl@,
                    ));
                    assert forall|i2: int| 0 <= i2 < caps@.len() implies name_among(
                        (#[trigger] caps@[i2]).spec_name(),
                        names@,
                        k + 1,
                    ) by {
                        lemma_name_among_widen(caps@[i2].spec_name(), names@, k as int, k + 1);
                    }
                }
            }
            k = k + 1;
        }
        Ok(CapabilityCatalog { caps })
    }

    /// Looks a capability up by its enum name.
    pub fn capability(&self, name: CapabilityName) -> (r: Option<&Capability>)
        ensures
            r matches Some(c) ==> exists|i: int|
                0 <= i < self.spec_caps().len() && #[trigger] self.spec_caps()[i] == *c
                    && c.spec_name() == name,
            r is None <==> forall|i: int|
                0 <= i < self.spec_caps().len() ==> (#[trigger] self.spec_caps()[i]).spec_name()
                    != name,
    {
        let mut k: usize = 0;
        while k < self.caps.len()
            invariant
                k <= self.caps@.len(),
                forall|i: int|
                    0 <= i < k ==> (#[trigger] self.caps@[i]).spec_name() != name,
            decreases self.caps@.len() - k,
        {
            if self.caps[k].name == name {
                proof {
                    assert((self.spec_caps()[k as int]).spec_name() == name);
                }
                return Some(&self.caps[k]);
            }
            k = k + 1;
        }
        None
    }

    /// Looks a capability up by its friendly string; an unknown string is
    /// reported with a suggestion when a close catalog name exists.
    pub fn lookup(&self, friendly: &str) -> (r: Result<&Capability, AcError>)
        ensures
            r is Ok <==> (exists|i: int|
                0 <= i < self.spec_caps().len() && cap_name_str(
                    (#[trigger] self.spec_caps()[i]).spec_name(),
                ) == friendly@),
            r matches Ok(c) ==> exists|i: int|
                0 <= i < self.spec_caps().len() && #[trigger] self.spec_caps()[i] == *c
                    && cap_name_str(c.spec_name()) == friendly@,
            r matches Err(e) ==> e matches AcError::UnknownCapability { name, suggestion } && name@
                == friendly@ && suggestion_ok(friendly@, suggestion),
    {
        let mut k: usize = 0;
        while k < self.caps.len()
            invariant
                k <= self.caps@.len(),
                forall|i: int|
                    0 <= i < k ==> cap_name_str((#[trigger] self.caps@[i]).spec_name())
                        != friendly@,
            decreases self.caps@.len() - k,
        {
            if str_eq(self.caps[k].name.as_str(), friendly) {
                proof {
                    assert(cap_name_str((self.spec_caps()[k as int]).spec_name()) == friendly@);
                }
                return Ok(&self.caps[k]);
            }
            k = k + 1;
        }
        Err(
            AcError::UnknownCapability {
                name: friendly.to_owned(),
                suggestion: suggest_capability_name(friendly),
            },
        )
    }

    /// Looks a capability name up by the SDDL string of its derived SID.
    pub fn lookup_sid(&self, sid_sddl: &str) -> (r: Option<CapabilityName>)
        ensures
            r matches Some(n) ==> exists|i: int|
                0 <= i < self.spec_caps().len() && (#[trigger] self.spec_caps()[i]).spec_name() == n
                    && self.spec_caps()[i].spec_sid().sid_sddl@ == sid_sddl@,
            r is None <==> forall|i: int|
                0 <= i < self.spec_caps().len() ==> (
                #[trigger] self.spec_caps()[i]).spec_sid().sid_sddl@ != sid_sddl@,
    {
        let mut k: usize = 0;
        while k < self.caps.len()
            invariant
                k <= self.caps@.len(),
                forall|i: int|
                    0 <= i < k ==> (#[trigger] self.caps@[i]).spec_sid().sid_sddl@ != sid_sddl@,
            decreases self.caps@.len() - k,
        {
            if str_eq(self.caps[k].sid.sid_sddl.as_str(), sid_sddl) {
                proof {
                    assert((self.spec_caps()[k as int]).spec_sid().sid_sddl@ == sid_sddl@);
                }
                return Some(self.caps[k].name);
            }
            k = k + 1;
        }
        None
    }
}

/// Some capability in the list carries the given name.
pub open spec fn caps_contain(caps: Seq<Capability>, n: CapabilityName) -> bool {
    exists|i: int| 0 <= i < caps.len() && (#[trigger] caps[i]).spec_name() == n
}

/// The name occurs among the first `k` entries of `names`.
pub open spec fn name_among(n: CapabilityName, names: Seq<CapabilityName>, k: int) -> bool {
    exists|j: int| 0 <= j < k && #[trigger] names[j] == n
}

/// `caps_contain` survives appending a further capability.
proof fn lemma_caps_contain_push(caps: Seq<Capability>, c: Capability, n: CapabilityName)
    requires
        caps_contain(caps, n),
    ensures
        caps_contain(caps.push(c), n),
{
    let i = choose|i: int| 0 <= i < caps.len() && (#[trigger] caps[i]).spec_name() == n;
    assert(caps.push(c)[i] == caps[i]);
}

/// `name_among` survives widening the bound.
proof fn lemma_name_among_widen(n: CapabilityName, names: Seq<CapabilityName>, k: int, k2: int)
    requires
        k <= k2,
        name_among(n, names, k),
    ensures
        name_among(n, names, k2),
{
    let j = choose|j: int| 0 <= j < k && #[trigger] names[j] == n;
    assert(0 <= j < k2 && names[j] == n);
}

/// The catalog holds exactly the given names, each joined with its
/// resolution through the table.
pub open spec fn catalog_covers(
    r: CapabilityResolver,
    names: Seq<CapabilityName>,
    cat: CapabilityCatalog,
) -> bool {
    &&& forall|j: int| 0 <= j < names.len() ==> caps_contain(cat.spec_caps(), #[trigger] names[j])
    &&& forall|i: int|
        0 <= i < cat.spec_caps().len() ==> name_among(
            (#[trigger] cat.spec_caps()[i]).spec_name(),
            names,
            names.len() as int,
        )
    &&& forall|i: int|
        0 <= i < cat.spec_caps().len() ==> r.spec_resolve(
            cap_name_str((#[trigger] cat.spec_caps()[i]).spec_name()),
        ) == Some(cat.spec_caps()[i].spec_sid().sid_sddl@)
}

/// A fully-composed, fully-resolved security-capability descriptor: the
/// package identity, the resolved capability SIDs, and the LPAC flag. Built
/// once by [`SecurityCapabilitiesBuilder::build`] and consumed by a launch.
#[derive(Debug, PartialEq, Eq)]
pub struct SecurityCapabilities {
    pub package: AppContainerSid,
    pub caps: Vec<SidAndAttributes>,
    pub lpac: bool,
}

impl Clone for SecurityCapabilities {
    fn clone(&self) -> (r: Self)
        ensures
            r.package == self.package,
            r.caps@ == self.caps@,
            r.lpac == self.lpac,
    {
        let mut caps: Vec<SidAndAttributes> = Vec::new();
        let mut k: usize = 0;
        while k < self.caps.len()
            invariant
                k <= self.caps@.len(),
                caps@.len() == k,
                forall|i: int| 0 <= i < k ==> #[trigger] caps@[i] == self.caps@[i],
            decreases self.caps@.len() - k,
        {
            caps.push(self.caps[k].clone());
            k = k + 1;
        }
        proof {
            assert(caps@ =~= self.caps@);
        }
        SecurityCapabilities { package: self.package.clone(), caps, lpac: self.lpac }
    }
}

/// Accumulates requested capability names and an LPAC flag, then resolves
/// them all at once into an immutable [`SecurityCapabilities`] value.
#[derive(Debug)]
pub struct SecurityCapabilitiesBuilder {
    package: AppContainerSid,
    caps_named: Vec<String>,
    lpac: bool,
}

impl SecurityCapabilitiesBuilder {
    /// The package identity this builder was started from.
    pub closed spec fn spec_package(&self) -> AppContainerSid {
        self.package
    }

    /// The capability names accumulated so far.
    pub closed spec fn spec_named(&self) -> Seq<String> {
        self.caps_named@
    }

    /// The accumulated capability names, as character sequences.
    pub open spec fn named_views(&self) -> Seq<Seq<char>> {
        Seq::new(self.spec_named().len(), |i: int| self.spec_named()[i]@)
    }

    /// Whether LPAC launch is requested.
    pub closed spec fn spec_lpac(&self) -> bool {
        self.lpac
    }

    /// Starts a builder for the given package identity: no capabilities,
    /// LPAC off.
    pub fn new(pkg: &AppContainerSid) -> (r: Self)
        ensures
            r.spec_package() == *pkg,
            r.named_views() == Seq::<Seq<char>>::empty(),
            !r.spec_lpac(),
    {
        let r = SecurityCapabilitiesBuilder {
            package: pkg.clone(),
            caps_named: Vec::new(),
            lpac: false,
        };
        proof {
            assert(r.named_views() =~= Seq::<Seq<char>>::empty());
        }
        r
    }

    /// Appends the friendly strings of the given known capabilities.
    pub fn with_known(self, caps: &[KnownCapability]) -> (r: Self)
        ensures
            r.spec_package() == self.spec_package(),
            r.spec_lpac() == self.spec_lpac(),
            r.named_views() == self.named_views() + cap_names_view(caps@),
    {
        let mut me = self;
        let ghost base = self.named_views().len() as int;
        let mut k: usize = 0;
        while k < caps.len()
            invariant
                k <= caps@.len(),
                me.spec_package() == self.spec_package(),
                me.spec_lpac() == self.spec_lpac(),
                base == self.named_views().len(),
                me.named_views().len() == base + k,
                forall|i: int| 0 <= i < base ==> me.named_views()[i] == self.named_views()[i],
                forall|i: int|
                    0 <= i < k ==> me.named_views()[base + i] == cap_name_str(#[trigger] caps@[i]),
            decreases caps@.len() - k,
        {
            me.caps_named.push(caps[k].as_str().to_owned());
            k = k + 1;
        }
        proof {
            assert(me.named_views() =~= self.named_views() + cap_names_view(caps@));
        }
        me
    }

    /// Appends raw capability names as given.
    pub fn with_named(self, names: &[&str]) -> (r: Self)
        ensures
            r.spec_package() == self.spec_package(),
            r.spec_lpac() == self.spec_lpac(),
            r.named_views() == self.named_views() + strs_view(names@),
    {
        let mut me = self;
        let ghost base = self.named_views().len() as int;
        let mut k: usize = 0;
        while k < names.len()
            invariant
                k <= names@.len(),
                me.spec_package() == self.spec_package(),
                me.spec_lpac() == self.spec_lpac(),
                base == self.named_views().len(),
                me.named_views().len() == base + k,
                forall|i: int| 0 <= i < base ==> me.named_views()[i] == self.named_views()[i],
                forall|i: int| 0 <= i < k ==> me.named_views()[base + i] == (#[trigger] names@[i])@,
            decreases names@.len() - k,
        {
            me.caps_named.push(names[k].to_owned());
            k = k + 1;
        }
        proof {
            assert(me.named_views() =~= self.named_views() + strs_view(names@));
        }
        me
    }

    /// Opinionated minimal LPAC defaults: sets the LPAC flag and appends the
    /// two baseline capability names LPAC processes commonly need.
    pub fn with_lpac_defaults(self) -> (r: Self)
        ensures
            r.spec_package() == self.spec_package(),
            r.spec_lpac(),
            r.named_views() == self.named_views() + seq!["registryRead"@, "lpacCom"@],
    {
        let mut me = self;
        me.lpac = true;
        me.caps_named.push("registryRead".to_owned());
        me.caps_named.push("lpacCom".to_owned());
        proof {
            assert(me.named_views() =~= self.named_views() + seq!["registryRead"@, "lpacCom"@]);
        }
        me
    }

    /// Sets the LPAC flag.
    pub fn lpac(self, enabled: bool) -> (r: Self)
        ensures
            r.spec_package() == self.spec_package(),
            r.spec_lpac() == enabled,
            r.named_views() == self.named_views(),
    {
        let mut me = self;
        me.lpac = enabled;
        me
    }

    /// Resolves every accumulated name; the first unresolvable name aborts
    /// the build, so no partial capability set is ever returned.
    pub fn build(self, resolver: &CapabilityResolver) -> (r: Result<SecurityCapabilities, AcError>)
        ensures
            r is Ok <==> all_resolvable(*resolver, self.named_views()),
            r matches Ok(sc) ==> {
                &&& sc.package == self.spec_package()
                &&& sc.lpac == self.spec_lpac()
                &&& resolved_caps_ok(*resolver, self.named_views(), sc.caps@)
            },
            r matches Err(e) ==> unknown_capability_err(*resolver, self.named_views(), e),
    {
        let mut refs: Vec<&str> = Vec::new();
        let mut k: usize = 0;
        while k < self.caps_named.len()
            invariant
                k <= self.caps_named@.len(),
                refs@.len() == k,
                forall|i: int| 0 <= i < k ==> #[trigger] refs@[i]@ == self.caps_named@[i]@,
            decreases self.caps_named@.len() - k,
        {
            refs.push(self.caps_named[k].as_str());
            k = k + 1;
        }
        proof {
            assert(strs_view(refs@) =~= self.named_views());
        }
        let caps = derive_named_capability_sids(resolver, refs.as_slice())?;
        Ok(SecurityCapabilities { package: self.package, caps, lpac: self.lpac })
    }

    /// Compatibility no-op kept for older builder chains; returns `self`
    /// unchanged.
    pub fn unwrap(self) -> (r: Self)
        ensures
            r == self,
    {
        self
    }

    /// The accumulated capability names, exposed for inspection in tests.
    pub fn named_caps_for_test(&self) -> (r: &Vec<String>)
        ensures
            r@ == self.spec_named(),
    {
        &self.caps_named
    }

    /// The LPAC flag, exposed for inspection in tests.
    pub fn lpac_enabled_for_test(&self) -> (r: bool)
        ensures
            r == self.spec_lpac(),
    {
        self.lpac
    }
}

/// Whether any capability in the list carries the given name.
fn contains_name(caps: &Vec<Capability>, name: CapabilityName) -> (r: bool)
    ensures
        r == caps_contain(caps@, name),
{
    let mut k: usize = 0;
    while k < caps.len()
        invariant
            k <= caps@.len(),
            forall|i: int| 0 <= i < k ==> (#[trigger] caps@[i]).spec_name() != name,
        decreases caps@.len() - k,
    {
        if caps[k].name == name {
            return true;
        }
        k = k + 1;
    }
    false
}

} // verus!
