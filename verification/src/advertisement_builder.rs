//! Builder for BLE advertisement payloads.
//!
//! An advertisement payload is a sequence of AD structures, each of the form
//! `[length, type, data...]` where `length` covers the type byte and the data.
//! The builder appends structures into a fixed-capacity buffer; overshooting
//! the capacity is detected when the final byte slice is requested.

use vstd::prelude::*;
use vstd::string::StringSliceAdditionalSpecFns;

verus! {

/// Error returned when the assembled payload no longer fits the buffer.
#[derive(Debug, Clone, Copy, PartialEq, Eq)]
pub enum Error {
    Oversize { expected: usize },
}

/// Advertisement data structure types, as assigned by the Bluetooth SIG.
#[allow(non_camel_case_types)]
#[derive(Debug, Clone, Copy, PartialEq, Eq)]
pub enum ADType {
    Flags,
    Incomplete16ServiceList,
    Complete16ServiceList,
    Incomplete32ServiceList,
    Complete32ServiceList,
    Incomplete128ServiceList,
    Complete128ServiceList,
    ShortName,
    FullName,
    TXPowerLevel,
    PeripheralConnectionIntervalRange,
    ServiceSolicitation16,
    ServiceSolicitation128,
    ServiceSolicitation32,
    ServiceData16,
    ServiceData32,
    ServiceData128,
    Appearance,
    PublicTargetAddress,
    RandomTargetAddress,
    AdvertisingInterval,
    URI,
    LE_SupportedFeatures,
    ManufacturerSpecificData,
}

impl ADType {
    /// The one-byte AD type code that goes on the air.
    pub open spec fn code_spec(self) -> u8 {
        match self {
            ADType::Flags => 0x01,
            ADType::Incomplete16ServiceList => 0x02,
            ADType::Complete16ServiceList => 0x03,
            ADType::Incomplete32ServiceList => 0x04,
            ADType::Complete32ServiceList => 0x05,
            ADType::Incomplete128ServiceList => 0x06,
            ADType::Complete128ServiceList => 0x07,
            ADType::ShortName => 0x08,
            ADType::FullName => 0x09,
            ADType::TXPowerLevel => 0x0a,
            ADType::PeripheralConnectionIntervalRange => 0x12,
            ADType::ServiceSolicitation16 => 0x14,
            ADType::ServiceSolicitation128 => 0x15,
            ADType::ServiceSolicitation32 => 0x1f,
            ADType::ServiceData16 => 0x16,
            ADType::ServiceData32 => 0x20,
            ADType::ServiceData128 => 0x21,
            ADType::Appearance => 0x19,
            ADType::PublicTargetAddress => 0x17,
            ADType::RandomTargetAddress => 0x18,
            ADType::AdvertisingInterval => 0x1a,
            ADType::URI => 0x24,
            ADType::LE_SupportedFeatures => 0x27,
            ADType::ManufacturerSpecificData => 0xff,
        }
    }

    pub fn code(self) -> (r: u8)
        ensures
            r == self.code_spec(),
    {
        match self {
            ADType::Flags => 0x01,
            ADType::Incomplete16ServiceList => 0x02,
            ADType::Complete16ServiceList => 0x03,
            ADType::Incomplete32ServiceList => 0x04,
            ADType::Complete32ServiceList => 0x05,
            ADType::Incomplete128ServiceList => 0x06,
            ADType::Complete128ServiceList => 0x07,
            ADType::ShortName => 0x08,
            ADType::FullName => 0x09,
            ADType::TXPowerLevel => 0x0a,
            ADType::PeripheralConnectionIntervalRange => 0x12,
            ADType::ServiceSolicitation16 => 0x14,
            ADType::ServiceSolicitation128 => 0x15,
            ADType::ServiceSolicitation32 => 0x1f,
            ADType::ServiceData16 => 0x16,
            ADType::ServiceData32 => 0x20,
            ADType::ServiceData128 => 0x21,
            ADType::Appearance => 0x19,
            ADType::PublicTargetAddress => 0x17,
            ADType::RandomTargetAddress => 0x18,
            ADType::AdvertisingInterval => 0x1a,
            ADType::URI => 0x24,
            ADType::LE_SupportedFeatures => 0x27,
            ADType::ManufacturerSpecificData => 0xff,
        }
    }
}

/// Flags carried in the `Flags` AD structure.
#[allow(non_camel_case_types)]
#[derive(Debug, Clone, Copy, PartialEq, Eq)]
pub enum Flag {
    LimitedDiscovery,
    GeneralDiscovery,
    LE_Only,
    Bit3,
    Bit4,
}

impl Flag {
    pub open spec fn code_spec(self) -> u8 {
        match self {
            Flag::LimitedDiscovery => 0x01,
            Flag::GeneralDiscovery => 0x02,
            Flag::LE_Only => 0x04,
            Flag::Bit3 => 0x08,
            Flag::Bit4 => 0x10,
        }
    }

    pub fn code(self) -> (r: u8)
        ensures
            r == self.code_spec(),
    {
        match self {
            Flag::LimitedDiscovery => 0x01,
            Flag::GeneralDiscovery => 0x02,
            Flag::LE_Only => 0x04,
            Flag::Bit3 => 0x08,
            Flag::Bit4 => 0x10,
        }
    }
}

/// Sum of the flag codes, as the `flags` modifier accumulates them.
pub open spec fn flags_sum(s: Seq<Flag>) -> int
    decreases s.len(),
{
    if s.len() == 0 {
        0
    } else {
        s[0].code_spec() + flags_sum(s.drop_first())
    }
}

proof fn lemma_flags_sum_nonneg(s: Seq<Flag>)
    ensures
        0 <= flags_sum(s),
    decreases s.len(),
{
    if s.len() > 0 {
        lemma_flags_sum_nonneg(s.drop_first());
    }
}

proof fn lemma_flags_sum_take_succ(s: Seq<Flag>, i: int)
    requires
        0 <= i < s.len(),
    ensures
        flags_sum(s.take(i + 1)) == flags_sum(s.take(i)) + s[i].code_spec(),
    decreases i,
{
    if i == 0 {
        assert(s.take(1).drop_first() =~= Seq::<Flag>::empty());
        assert(s.take(0) =~= Seq::<Flag>::empty());
    } else {
        lemma_flags_sum_take_succ(s.drop_first(), i - 1);
        assert(s.take(i + 1).drop_first() =~= s.drop_first().take(i));
        assert(s.take(i).drop_first() =~= s.drop_first().take(i - 1));
    }
}

proof fn lemma_flags_sum_take_le(s: Seq<Flag>, i: int)
    requires
        0 <= i <= s.len(),
    ensures
        flags_sum(s.take(i)) <= flags_sum(s),
    decreases s.len() - i,
{
    if i == s.len() {
        assert(s.take(i) =~= s);
    } else {
        lemma_flags_sum_take_succ(s, i);
        lemma_flags_sum_take_le(s, i + 1);
    }
}

/// A service identifier that can be rendered into an advertisement.
pub trait Service: Sized {
    /// Number of bytes one rendered identifier occupies.
    spec fn size_spec() -> nat;

    /// The bytes this identifier renders to.
    spec fn bytes_spec(&self) -> Seq<u8>;

    proof fn lemma_bytes_len(&self)
        ensures
            self.bytes_spec().len() == Self::size_spec(),
    ;

    fn size() -> (r: usize)
        ensures
            r as nat == Self::size_spec(),
    ;

    fn render<const N: usize>(&self, adv: &mut AdvertisementData<N>)
        requires
            old(adv).wf(),
            old(adv)@.len() + self.bytes_spec().len() <= usize::MAX,
        ensures
            final(adv).wf(),
            final(adv)@ == old(adv)@ + self.bytes_spec(),
    ;
}

/// Concatenation of the rendered bytes of a sequence of service identifiers.
pub open spec fn rendered<S: Service>(items: Seq<S>) -> Seq<u8>
    decreases items.len(),
{
    if items.len() == 0 {
        Seq::empty()
    } else {
        items[0].bytes_spec() + rendered(items.drop_first())
    }
}

proof fn lemma_rendered_take_succ<S: Service>(items: Seq<S>, i: int)
    requires
        0 <= i < items.len(),
    ensures
        rendered(items.take(i + 1)) =~= rendered(items.take(i)) + items[i].bytes_spec(),
    decreases i,
{
    if i == 0 {
        assert(items.take(1).drop_first() =~= Seq::<S>::empty());
        assert(items.take(0) =~= Seq::<S>::empty());
    } else {
        lemma_rendered_take_succ(items.drop_first(), i - 1);
        assert(items.take(i + 1).drop_first() =~= items.drop_first().take(i));
        assert(items.take(i).drop_first() =~= items.drop_first().take(i - 1));
    }
}

proof fn lemma_rendered_len<S: Service>(items: Seq<S>)
    ensures
        rendered(items).len() == items.len() * S::size_spec(),
    decreases items.len(),
{
    if items.len() == 0 {
    } else {
        items[0].lemma_bytes_len();
        lemma_rendered_len::<S>(items.drop_first());
        assert(items.len() * S::size_spec()
            == S::size_spec() + (items.len() - 1) * S::size_spec()) by (nonlinear_arith);
    }
}

/// A list of same-kind service identifiers together with the AD type that
/// announces it.
pub trait ServiceList<S: Service, const N: usize>: Sized {
    /// The AD type this list is announced under.
    spec fn ad_spec() -> ADType;

    /// The identifiers in the list, in order.
    spec fn items(&self) -> Seq<S>;

    fn ad_type() -> (r: ADType)
        ensures
            r == Self::ad_spec(),
    ;

    fn list(self) -> (r: [S; N])
        ensures
            r@ == self.items(),
    ;
}

/// The 16-bit service identifiers assigned by the Bluetooth SIG.
#[derive(Debug, Clone, PartialEq, Eq)]
pub enum BasicService {
    GenericAccess,
    GenericAttribute,
    ImmediateAlert,
    LinkLoss,
    TxPower,
    CurrentTime,
    ReferenceTimeUpdate,
    NextDSTChange,
    Glucose,
    HealthThermometer,
    DeviceInformation,
    HeartRate,
    PhoneAlertStatus,
    Battery,
    BloodPressure,
    AlertNotification,
    HumanInterfaceDevice,
    ScanParameters,
    RunnnigSpeedAndCadence,
    AutomationIO,
    CyclingSpeedAndCadence,
    CyclingPower,
    LocationAndNavigation,
    EnvironmentalSensing,
    BodyComposition,
    UserData,
    WeightScale,
    BondManagement,
    ContinousGlucoseMonitoring,
    InternetProtocolSupport,
    IndoorPositioning,
    PulseOximeter,
    HTTPProxy,
    TransportDiscovery,
    ObjectTransfer,
    FitnessMachine,
    MeshProvisioning,
    MeshProxy,
    ReconnectionConfiguration,
    InsulinDelivery,
    BinarySensor,
    EmergencyConfiguration,
    AuthorizationControl,
    PhysicalActivityMonitor,
    ElapsedTime,
    GenericHealthSensor,
    AudioInputControl,
    VolumeControl,
    VolumeOffsetControl,
    CoordinatedSetIdentification,
    DeviceTime,
    MediaControl,
    GenericMediaControl,
    ConstantToneExtension,
    TelephoneBearer,
    GenericTelephoneBearer,
    MicrophoneControl,
    AudioStreamControl,
    BroadcastAudioScan,
    PublishedAudioScan,
    BasicAudioCapabilities,
    BroadcastAudioAnnouncement,
    CommonAudio,
    HearingAccess,
    TelephonyAndMediaAudio,
    PublicBroadcastAnnouncement,
    ElectronicShelfLabel,
    GamingAudio,
    MeshProxySolicitation,
}

impl BasicService {
    /// The 16-bit assigned number of the service.
    pub open spec fn code_spec(self) -> u16 {
        match self {
            BasicService::GenericAccess => 0x1800,
            BasicService::GenericAttribute => 0x1801,
            BasicService::ImmediateAlert => 0x1802,
            BasicService::LinkLoss => 0x1803,
            BasicService::TxPower => 0x1804,
            BasicService::CurrentTime => 0x1805,
            BasicService::ReferenceTimeUpdate => 0x1806,
            BasicService::NextDSTChange => 0x1807,
            BasicService::Glucose => 0x1808,
            BasicService::HealthThermometer => 0x1809,
            BasicService::DeviceInformation => 0x180a,
            BasicService::HeartRate => 0x180d,
            BasicService::PhoneAlertStatus => 0x180e,
            BasicService::Battery => 0x180f,
            BasicService::BloodPressure => 0x1810,
            BasicService::AlertNotification => 0x1811,
            BasicService::HumanInterfaceDevice => 0x1812,
            BasicService::ScanParameters => 0x1813,
            BasicService::RunnnigSpeedAndCadence => 0x1814,
            BasicService::AutomationIO => 0x1815,
            BasicService::CyclingSpeedAndCadence => 0x1816,
            BasicService::CyclingPower => 0x1818,
            BasicService::LocationAndNavigation => 0x1819,
            BasicService::EnvironmentalSensing => 0x181a,
            BasicService::BodyComposition => 0x181b,
            BasicService::UserData => 0x181c,
            BasicService::WeightScale => 0x181d,
            BasicService::BondManagement => 0x181e,
            BasicService::ContinousGlucoseMonitoring => 0x181f,
            BasicService::InternetProtocolSupport => 0x1820,
            BasicService::IndoorPositioning => 0x1821,
            BasicService::PulseOximeter => 0x1822,
            BasicService::HTTPProxy => 0x1823,
            BasicService::TransportDiscovery => 0x1824,
            BasicService::ObjectTransfer => 0x1825,
            BasicService::FitnessMachine => 0x1826,
            BasicService::MeshProvisioning => 0x1827,
            BasicService::MeshProxy => 0x1828,
            BasicService::ReconnectionConfiguration => 0x1829,
            BasicService::InsulinDelivery => 0x183a,
            BasicService::BinarySensor => 0x183b,
            BasicService::EmergencyConfiguration => 0x183c,
            BasicService::AuthorizationControl => 0x183d,
            BasicService::PhysicalActivityMonitor => 0x183e,
            BasicService::ElapsedTime => 0x183f,
            BasicService::GenericHealthSensor => 0x1840,
            BasicService::AudioInputControl => 0x1843,
            BasicService::VolumeControl => 0x1844,
            BasicService::VolumeOffsetControl => 0x1845,
            BasicService::CoordinatedSetIdentification => 0x1846,
            BasicService::DeviceTime => 0x1847,
            BasicService::MediaControl => 0x1848,
            BasicService::GenericMediaControl => 0x1849,
            BasicService::ConstantToneExtension => 0x184a,
            BasicService::TelephoneBearer => 0x184b,
            BasicService::GenericTelephoneBearer => 0x184c,
            BasicService::MicrophoneControl => 0x184d,
            BasicService::AudioStreamControl => 0x184e,
            BasicService::BroadcastAudioScan => 0x184f,
            BasicService::PublishedAudioScan => 0x1850,
            BasicService::BasicAudioCapabilities => 0x1851,
            BasicService::BroadcastAudioAnnouncement => 0x1852,
            BasicService::CommonAudio => 0x1853,
            BasicService::HearingAccess => 0x1854,
            BasicService::TelephonyAndMediaAudio => 0x1855,
            BasicService::PublicBroadcastAnnouncement => 0x1856,
            BasicService::ElectronicShelfLabel => 0x1857,
            BasicService::GamingAudio => 0x1858,
            BasicService::MeshProxySolicitation => 0x1859,
        }
    }

    pub fn code(&self) -> (r: u16)
        ensures
            r == self.code_spec(),
    {
        match self {
            BasicService::GenericAccess => 0x1800,
            BasicService::GenericAttribute => 0x1801,
            BasicService::ImmediateAlert => 0x1802,
            BasicService::LinkLoss => 0x1803,
            BasicService::TxPower => 0x1804,
            BasicService::CurrentTime => 0x1805,
            BasicService::ReferenceTimeUpdate => 0x1806,
            BasicService::NextDSTChange => 0x1807,
            BasicService::Glucose => 0x1808,
            BasicService::HealthThermometer => 0x1809,
            BasicService::DeviceInformation => 0x180a,
            BasicService::HeartRate => 0x180d,
            BasicService::PhoneAlertStatus => 0x180e,
            BasicService::Battery => 0x180f,
            BasicService::BloodPressure => 0x1810,
            BasicService::AlertNotification => 0x1811,
            BasicService::HumanInterfaceDevice => 0x1812,
            BasicService::ScanParameters => 0x1813,
            BasicService::RunnnigSpeedAndCadence => 0x1814,
            BasicService::AutomationIO => 0x1815,
            BasicService::CyclingSpeedAndCadence => 0x1816,
            BasicService::CyclingPower => 0x1818,
            BasicService::LocationAndNavigation => 0x1819,
            BasicService::EnvironmentalSensing => 0x181a,
            BasicService::BodyComposition => 0x181b,
            BasicService::UserData => 0x181c,
            BasicService::WeightScale => 0x181d,
            BasicService::BondManagement => 0x181e,
            BasicService::ContinousGlucoseMonitoring => 0x181f,
            BasicService::InternetProtocolSupport => 0x1820,
            BasicService::IndoorPositioning => 0x1821,
            BasicService::PulseOximeter => 0x1822,
            BasicService::HTTPProxy => 0x1823,
            BasicService::TransportDiscovery => 0x1824,
            BasicService::ObjectTransfer => 0x1825,
            BasicService::FitnessMachine => 0x1826,
            BasicService::MeshProvisioning => 0x1827,
            BasicService::MeshProxy => 0x1828,
            BasicService::ReconnectionConfiguration => 0x1829,
            BasicService::InsulinDelivery => 0x183a,
            BasicService::BinarySensor => 0x183b,
            BasicService::EmergencyConfiguration => 0x183c,
            BasicService::AuthorizationControl => 0x183d,
            BasicService::PhysicalActivityMonitor => 0x183e,
            BasicService::ElapsedTime => 0x183f,
            BasicService::GenericHealthSensor => 0x1840,
            BasicService::AudioInputControl => 0x1843,
            BasicService::VolumeControl => 0x1844,
            BasicService::VolumeOffsetControl => 0x1845,
            BasicService::CoordinatedSetIdentification => 0x1846,
            BasicService::DeviceTime => 0x1847,
            BasicService::MediaControl => 0x1848,
            BasicService::GenericMediaControl => 0x1849,
            BasicService::ConstantToneExtension => 0x184a,
            BasicService::TelephoneBearer => 0x184b,
            BasicService::GenericTelephoneBearer => 0x184c,
            BasicService::MicrophoneControl => 0x184d,
            BasicService::AudioStreamControl => 0x184e,
            BasicService::BroadcastAudioScan => 0x184f,
            BasicService::PublishedAudioScan => 0x1850,
            BasicService::BasicAudioCapabilities => 0x1851,
            BasicService::BroadcastAudioAnnouncement => 0x1852,
            BasicService::CommonAudio => 0x1853,
            BasicService::HearingAccess => 0x1854,
            BasicService::TelephonyAndMediaAudio => 0x1855,
            BasicService::PublicBroadcastAnnouncement => 0x1856,
            BasicService::ElectronicShelfLabel => 0x1857,
            BasicService::GamingAudio => 0x1858,
            BasicService::MeshProxySolicitation => 0x1859,
        }
    }
}

impl Service for BasicService {
    open spec fn size_spec() -> nat {
        2
    }

    open spec fn bytes_spec(&self) -> Seq<u8> {
        seq![(self.code_spec() & 0xff) as u8, (self.code_spec() >> 8) as u8]
    }

    proof fn lemma_bytes_len(&self) {
    }

    fn size() -> (r: usize) {
        2
    }

    fn render<const N: usize>(&self, adv: &mut AdvertisementData<N>) {
        let c = self.code();
        let data: [u8; 2] = [(c & 0xff) as u8, (c >> 8) as u8];
        adv.write(data.as_slice());
    }
}

/// A 128-bit service identifier, given in big-endian byte order and rendered
/// little-endian, as the radio expects it.
pub struct CustomService(pub [u8; 16]);

impl Service for CustomService {
    open spec fn size_spec() -> nat {
        16
    }

    open spec fn bytes_spec(&self) -> Seq<u8> {
        Seq::new(16, |i: int| self.0@[15 - i])
    }

    proof fn lemma_bytes_len(&self) {
    }

    fn size() -> (r: usize) {
        16
    }

    fn render<const N: usize>(&self, adv: &mut AdvertisementData<N>) {
        let mut rev: Vec<u8> = Vec::new();
        let mut i: usize = 0;
        while i < 16
            invariant
                i <= 16,
                rev@ =~= Seq::new(i as nat, |j: int| self.0@[15 - j]),
            decreases 16 - i,
        {
            rev.push(self.0[15 - i]);
            assert(rev@ =~= Seq::new((i + 1) as nat, |j: int| self.0@[15 - j]));
            i += 1;
        }
        assert(rev@ =~= self.bytes_spec());
        adv.write(rev.as_slice());
    }
}

/// An incomplete list of 16-bit service identifiers.
pub struct Incomplete16<const N: usize>(pub [BasicService; N]);

/// A complete list of 16-bit service identifiers.
pub struct Complete16<const N: usize>(pub [BasicService; N]);

/// An incomplete list of 128-bit service identifiers.
pub struct Incomplete128<const N: usize>(pub [CustomService; N]);

/// A complete list of 128-bit service identifiers.
pub struct Complete128<const N: usize>(pub [CustomService; N]);

impl<const N: usize> ServiceList<BasicService, N> for Incomplete16<N> {
    open spec fn ad_spec() -> ADType {
        ADType::Incomplete16ServiceList
    }

    open spec fn items(&self) -> Seq<BasicService> {
        self.0@
    }

    fn ad_type() -> (r: ADType) {
        ADType::Incomplete16ServiceList
    }

    fn list(self) -> (r: [BasicService; N]) {
        self.0
    }
}

impl<const N: usize> ServiceList<BasicService, N> for Complete16<N> {
    open spec fn ad_spec() -> ADType {
        ADType::Complete16ServiceList
    }

    open spec fn items(&self) -> Seq<BasicService> {
        self.0@
    }

    fn ad_type() -> (r: ADType) {
        ADType::Complete16ServiceList
    }

    fn list(self) -> (r: [BasicService; N]) {
        self.0
    }
}

impl<const N: usize> ServiceList<CustomService, N> for Incomplete128<N> {
    open spec fn ad_spec() -> ADType {
        ADType::Incomplete128ServiceList
    }

    open spec fn items(&self) -> Seq<CustomService> {
        self.0@
    }

    fn ad_type() -> (r: ADType) {
        ADType::Incomplete128ServiceList
    }

    fn list(self) -> (r: [CustomService; N]) {
        self.0
    }
}

impl<const N: usize> ServiceList<CustomService, N> for Complete128<N> {
    open spec fn ad_spec() -> ADType {
        ADType::Complete128ServiceList
    }

    open spec fn items(&self) -> Seq<CustomService> {
        self.0@
    }

    fn ad_type() -> (r: ADType) {
        ADType::Complete128ServiceList
    }

    fn list(self) -> (r: [CustomService; N]) {
        self.0
    }
}

/// A device name together with the AD type it is announced under.
pub trait Name {
    /// The AD type this name is announced under.
    spec fn ad_spec() -> ADType;

    /// The UTF-8 bytes of the name.
    spec fn bytes_spec(&self) -> Seq<u8>;

    fn ad_type() -> (r: ADType)
        ensures
            r == Self::ad_spec(),
    ;

    fn inner(&self) -> (r: &str)
        ensures
            r.spec_bytes() == self.bytes_spec(),
    ;
}

/// A shortened device name.
pub struct ShortName<'a>(pub &'a str);

/// The complete device name.
pub struct FullName<'a>(pub &'a str);

impl<'a> Name for ShortName<'a> {
    open spec fn ad_spec() -> ADType {
        ADType::ShortName
    }

    open spec fn bytes_spec(&self) -> Seq<u8> {
        self.0.spec_bytes()
    }

    fn ad_type() -> (r: ADType) {
        ADType::ShortName
    }

    fn inner(&self) -> (r: &str) {
        self.0
    }
}

impl<'a> Name for FullName<'a> {
    open spec fn ad_spec() -> ADType {
        ADType::FullName
    }

    open spec fn bytes_spec(&self) -> Seq<u8> {
        self.0.spec_bytes()
    }

    fn ad_type() -> (r: ADType) {
        ADType::FullName
    }

    fn inner(&self) -> (r: &str) {
        self.0
    }
}

/// The bytes appended by one AD structure holding `bytes`, or nothing when
/// `bytes` is too long for the one-byte length prefix.
pub open spec fn with_structure(content: Seq<u8>, ad: ADType, bytes: Seq<u8>) -> Seq<u8> {
    if bytes.len() <= 254 {
        content + seq![(bytes.len() + 1) as u8, ad.code_spec()] + bytes
    } else {
        content
    }
}

/// An advertisement payload under construction, over a buffer of `N` bytes.
///
/// The view is the full sequence of bytes handed to the builder, whether or
/// not they fit: a payload that overshot the buffer is only rejected when
/// [`AdvertisementData::as_slice`] is called, as the radio would reject it.
pub struct AdvertisementData<const N: usize> {
    content: Vec<u8>,
    ptr: usize,
    written: Ghost<Seq<u8>>,
}

impl<const N: usize> View for AdvertisementData<N> {
    type V = Seq<u8>;

    closed spec fn view(&self) -> Seq<u8> {
        self.written@
    }
}

impl<const K: usize> AdvertisementData<K> {
    /// The builder keeps the bytes that fit; once a structure has overshot
    /// the buffer, `ptr` exceeds `K` and stays there.
    pub closed spec fn wf(self) -> bool {
        &&& self.written@.len() == self.ptr
        &&& (self.ptr <= K ==> self.content@ == self.written@)
    }

    pub fn new() -> (r: Self)
        ensures
            r.wf(),
            r@ == Seq::<u8>::empty(),
    {
        Self { content: Vec::new(), ptr: 0, written: Ghost(Seq::empty()) }
    }

    fn write(&mut self, data: &[u8])
        requires
            old(self).wf(),
            old(self)@.len() + data@.len() <= usize::MAX,
        ensures
            final(self).wf(),
            final(self)@ == old(self)@ + data@,
    {
        let end = self.ptr + data.len();
        if end <= K {
            let ghost base = self.content@;
            let mut i: usize = 0;
            while i < data.len()
                invariant
                    i <= data@.len(),
                    self.ptr == old(self).ptr,
                    self.written == old(self).written,
                    self.content@ == base + data@.take(i as int),
                decreases data@.len() - i,
            {
                self.content.push(data[i]);
                assert(self.content@ =~= base + data@.take(i as int + 1));
                i += 1;
            }
            assert(self.content@ =~= base + data@);
        }
        self.ptr = end;
        proof {
            self.written@ = self.written@ + data@;
        }
    }

    /// Append one raw AD structure: the length, the type code, and the data.
    pub fn raw(self, ad: ADType, data: &[u8]) -> (r: Self)
        requires
            self.wf(),
            data@.len() <= 254,
            self@.len() + data@.len() + 2 <= usize::MAX,
        ensures
            r.wf(),
            r@ == self@ + seq![(data@.len() + 1) as u8, ad.code_spec()] + data@,
    {
        let ghost base = self@;
        let mut s = self;
        let header: [u8; 2] = [data.len() as u8 + 1, ad.code()];
        s.write(header.as_slice());
        s.write(data);
        assert(s@ =~= base + seq![(data@.len() + 1) as u8, ad.code_spec()] + data@);
        s
    }

    /// View the resulting advertisement data as a byte slice, or report by
    /// how much it overshot the buffer.
    pub fn as_slice(&self) -> (r: Result<&[u8], Error>)
        requires
            self.wf(),
        ensures
            match r {
                Ok(s) => self@.len() <= K && s@ == self@,
                Err(e) => self@.len() > K && e == (Error::Oversize { expected: self@.len() as usize }),
            },
    {
        if self.ptr <= K {
            Ok(self.content.as_slice())
        } else {
            Err(Error::Oversize { expected: self.ptr })
        }
    }

    /// Add a flags structure holding the sum of the given flag codes.
    pub fn flags<const N: usize>(self, flags: [Flag; N]) -> (r: Self)
        requires
            self.wf(),
            flags_sum(flags@) <= 255,
            self@.len() + 3 <= usize::MAX,
        ensures
            r.wf(),
            r@ == self@ + seq![2u8, 0x01u8, flags_sum(flags@) as u8],
    {
        let ghost base = self@;
        let mut total: u8 = 0;
        let mut i: usize = 0;
        while i < N
            invariant
                i <= N,
                flags_sum(flags@) <= 255,
                total == flags_sum(flags@.take(i as int)),
            decreases N - i,
        {
            proof {
                lemma_flags_sum_take_succ(flags@, i as int);
                lemma_flags_sum_take_le(flags@, i as int + 1);
                lemma_flags_sum_nonneg(flags@.take(i as int + 1));
            }
            total = total + flags[i].code();
            i += 1;
        }
        assert(flags@.take(N as int) =~= flags@);
        let payload: [u8; 1] = [total];
        let r = self.raw(ADType::Flags, payload.as_slice());
        assert(r@ =~= base + seq![2u8, 0x01u8, flags_sum(flags@) as u8]);
        r
    }

    /// Add a list of services.
    pub fn services<L: ServiceList<S, N>, S: Service, const N: usize>(self, services: L) -> (r: Self)
        requires
            self.wf(),
            N * S::size_spec() + 1 <= 255,
            self@.len() + 2 + N * S::size_spec() <= usize::MAX,
        ensures
            r.wf(),
            r@ == self@ + seq![(N * S::size_spec() + 1) as u8, L::ad_spec().code_spec()]
                + rendered(services.items()),
    {
        let ghost base = self@;
        let ghost items = services.items();
        let mut s = self;
        let header: [u8; 2] = [(N * S::size()) as u8 + 1, L::ad_type().code()];
        s.write(header.as_slice());
        let ghost hdr = seq![(N * S::size_spec() + 1) as u8, L::ad_spec().code_spec()];
        assert(s@ =~= base + hdr);
        let arr = services.list();
        let mut i: usize = 0;
        while i < N
            invariant
                i <= N,
                arr@ == items,
                items.len() == N,
                N * S::size_spec() + 1 <= 255,
                base.len() + 2 + N * S::size_spec() <= usize::MAX,
                hdr.len() == 2,
                s.wf(),
                s@ == base + hdr + rendered(items.take(i as int)),
            decreases N - i,
        {
            proof {
                lemma_rendered_len::<S>(items.take(i as int));
                arr@[i as int].lemma_bytes_len();
                assert(items.take(i as int).len() == i as int);
                assert(rendered(items.take(i as int)).len() == (i as int) * S::size_spec());
                assert(s@.len() == base.len() + 2 + (i as int) * S::size_spec());
                assert((i as int) * S::size_spec() + S::size_spec() <= (N as int) * S::size_spec())
                    by (nonlinear_arith)
                    requires 0 <= i as int, i as int + 1 <= N as int, 0 <= S::size_spec();
                assert(s@.len() + arr@[i as int].bytes_spec().len() <= usize::MAX);
            }
            arr[i].render(&mut s);
            proof {
                lemma_rendered_take_succ(items, i as int);
            }
            i += 1;
        }
        assert(items.take(N as int) =~= items);
        s
    }

    /// Add a name structure, when the name's bytes fit in one AD structure;
    /// a name longer than 254 bytes leaves the payload unchanged.
    pub fn name<Nm: Name>(self, name: Nm) -> (r: Self)
        requires
            self.wf(),
            self@.len() + 256 <= usize::MAX,
        ensures
            r.wf(),
            r@ == with_structure(self@, Nm::ad_spec(), name.bytes_spec()),
    {
        let text = name.inner();
        let bytes = text.as_bytes();
        if bytes.len() <= 254 {
            self.raw(Nm::ad_type(), bytes)
        } else {
            self
        }
    }

    /// If the full name fits within the remaining buffer space, it is used;
    /// otherwise the short name is used. This modifier should be placed last.
    pub fn adapt_name(self, full: FullName, short: ShortName) -> (r: Self)
        requires
            self.wf(),
            self@.len() + 256 <= usize::MAX,
        ensures
            r.wf(),
            r@ == (if self@.len() + full.bytes_spec().len() <= K {
                with_structure(self@, ADType::FullName, full.bytes_spec())
            } else {
                with_structure(self@, ADType::ShortName, short.bytes_spec())
            }),
    {
        let ghost base = self@;
        let full_len = full.inner().as_bytes().len();
        if full_len <= K && self.ptr <= K - full_len {
            assert(base.len() + full.bytes_spec().len() <= K);
            self.name(full)
        } else {
            assert(!(base.len() + full.bytes_spec().len() <= K));
            self.name(short)
        }
    }
}

/// An advertisement payload of the standard 31-byte size.
pub type StandardAdvertisementData = AdvertisementData<31>;

/// An advertisement payload of the extended 254-byte size.
pub type ExtendedAdvertisementData = AdvertisementData<254>;

} // verus!
