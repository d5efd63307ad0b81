//! The four fault levels of the system, lowest first: hardware, driver,
//! component, system. A fault of one level embeds unchanged in the level
//! above it, so a handler at the top can still match on where it began.

use vstd::prelude::*;
use vstd::std_specs::convert::{FromSpec, FromSpecImpl};
use vstd::string::StringExecFns;

verus! {

/// A fault reported by a peripheral or by the bus it sits on.
#[derive(Debug, PartialEq, Eq)]
pub enum HalError {
    BusError(String),
    UnexpectedDevice,
    ConfigurationError(String),
    GpioError(String),
    ReadError(String),
    WriteError(String),
}

/// A fault reported by a device driver.
#[derive(Debug, PartialEq, Eq)]
pub enum DriverError {
    HalError(HalError),
    SensorNotReady,
    CommunicationError(String),
    InvalidData,
    ConfigurationFailed,
}

/// A fault reported by a component built on drivers.
#[derive(Debug, PartialEq, Eq)]
pub enum ComponentError {
    DriverError(DriverError),
    LogicError(String),
    NotInitialized,
}

/// A fault of any level, as the task runtime and the top-level caller see it.
#[derive(Debug, PartialEq, Eq)]
pub enum RocketError {
    Hal(HalError),
    Driver(DriverError),
    Component(ComponentError),
    Kernel(String),
    Configuration(String),
}

pub type HalResult<T> = core::result::Result<T, HalError>;

pub type DriverResult<T> = core::result::Result<T, DriverError>;

pub type RocketResult<T> = core::result::Result<T, RocketError>;

/// What `{:?}` prints for a string with the given characters: the text in
/// double quotes, with the characters that need it escaped.
pub uninterp spec fn debug_quoted(text: Seq<char>) -> Seq<char>;

/// Formats `text` with `{:?}`, the `Debug` rendering that std gives `str`.
/// The contract only gives that rendering its name, `debug_quoted`.
#[verifier::external_body]
fn quote_debug(text: &str) -> (r: String)
    ensures
        r@ == debug_quoted(text@),
{
    format!("{:?}", text)
}

/// The text of a variant that carries one field: name, then the field in
/// round brackets.
pub open spec fn variant_text(name: Seq<char>, field: Seq<char>) -> Seq<char> {
    name + seq!['('] + field + seq![')']
}

/// Writes a variant that carries one field, given the field's own text.
pub fn variant_string(name: &str, field: &str) -> (r: String)
    ensures
        r@ == variant_text(name@, field@),
{
    proof {
        reveal_strlit("(");
        reveal_strlit(")");
    }
    let mut out = String::from_str(name);
    out.append("(");
    out.append(field);
    out.append(")");
    assert(out@ =~= variant_text(name@, field@));
    out
}

/// Writes a variant that carries a piece of diagnostic text.
fn text_variant_string(name: &str, detail: &String) -> (r: String)
    ensures
        r@ == variant_text(name@, debug_quoted(detail@)),
{
    let quoted = quote_debug(detail.as_str());
    variant_string(name, quoted.as_str())
}

impl HalError {
    /// The variant's name, followed by its diagnostic text where it has one.
    pub open spec fn debug_text(self) -> Seq<char> {
        match self {
            HalError::BusError(s) => variant_text("BusError"@, debug_quoted(s@)),
            HalError::UnexpectedDevice => "UnexpectedDevice"@,
            HalError::ConfigurationError(s) => variant_text(
                "ConfigurationError"@,
                debug_quoted(s@),
            ),
            HalError::GpioError(s) => variant_text("GpioError"@, debug_quoted(s@)),
            HalError::ReadError(s) => variant_text("ReadError"@, debug_quoted(s@)),
            HalError::WriteError(s) => variant_text("WriteError"@, debug_quoted(s@)),
        }
    }

    pub fn debug_string(&self) -> (r: String)
        ensures
            r@ == self.debug_text(),
    {
        match self {
            HalError::BusError(s) => text_variant_string("BusError", s),
            HalError::UnexpectedDevice => String::from_str("UnexpectedDevice"),
            HalError::ConfigurationError(s) => text_variant_string("ConfigurationError", s),
            HalError::GpioError(s) => text_variant_string("GpioError", s),
            HalError::ReadError(s) => text_variant_string("ReadError", s),
            HalError::WriteError(s) => text_variant_string("WriteError", s),
        }
    }
}

impl DriverError {
    /// The variant's name, followed by what it carries.
    pub open spec fn debug_text(self) -> Seq<char> {
        match self {
            DriverError::HalError(e) => variant_text("HalError"@, e.debug_text()),
            DriverError::SensorNotReady => "SensorNotReady"@,
            DriverError::CommunicationError(s) => variant_text(
                "CommunicationError"@,
                debug_quoted(s@),
            ),
            DriverError::InvalidData => "InvalidData"@,
            DriverError::ConfigurationFailed => "ConfigurationFailed"@,
        }
    }

    pub fn debug_string(&self) -> (r: String)
        ensures
            r@ == self.debug_text(),
    {
        match self {
            DriverError::HalError(e) => {
                let inner = e.debug_string();
                variant_string("HalError", inner.as_str())
            },
            DriverError::SensorNotReady => String::from_str("SensorNotReady"),
            DriverError::CommunicationError(s) => text_variant_string("CommunicationError", s),
            DriverError::InvalidData => String::from_str("InvalidData"),
            DriverError::ConfigurationFailed => String::from_str("ConfigurationFailed"),
        }
    }
}

impl ComponentError {
    /// The variant's name, followed by what it carries.
    pub open spec fn debug_text(self) -> Seq<char> {
        match self {
            ComponentError::DriverError(e) => variant_text("DriverError"@, e.debug_text()),
            ComponentError::LogicError(s) => variant_text("LogicError"@, debug_quoted(s@)),
            ComponentError::NotInitialized => "NotInitialized"@,
        }
    }

    pub fn debug_string(&self) -> (r: String)
        ensures
            r@ == self.debug_text(),
    {
        match self {
            ComponentError::DriverError(e) => {
                let inner = e.debug_string();
                variant_string("DriverError", inner.as_str())
            },
            ComponentError::LogicError(s) => text_variant_string("LogicError", s),
            ComponentError::NotInitialized => String::from_str("NotInitialized"),
        }
    }
}

impl RocketError {
    /// The line a log shows for this fault: the level it came from, then the
    /// embedded fault, or the diagnostic text as it stands.
    pub open spec fn message_text(self) -> Seq<char> {
        match self {
            RocketError::Hal(e) => "HAL Error: "@ + e.debug_text(),
            RocketError::Driver(e) => "Driver Error: "@ + e.debug_text(),
            RocketError::Component(e) => "Component Error: "@ + e.debug_text(),
            RocketError::Kernel(s) => "Kernel Error: "@ + s@,
            RocketError::Configuration(s) => "Configuration Error: "@ + s@,
        }
    }

    /// The human-readable form of this fault.
    pub fn message(&self) -> (r: String)
        ensures
            r@ == self.message_text(),
    {
        match self {
            RocketError::Hal(e) => {
                let inner = e.debug_string();
                String::from_str("HAL Error: ").concat(inner.as_str())
            },
            RocketError::Driver(e) => {
                let inner = e.debug_string();
                String::from_str("Driver Error: ").concat(inner.as_str())
            },
            RocketError::Component(e) => {
                let inner = e.debug_string();
                String::from_str("Component Error: ").concat(inner.as_str())
            },
            RocketError::Kernel(s) => String::from_str("Kernel Error: ").concat(s.as_str()),
            RocketError::Configuration(s) => String::from_str("Configuration Error: ").concat(
                s.as_str(),
            ),
        }
    }
}

impl Clone for HalError {
    fn clone(&self) -> (r: Self)
        ensures
            r == *self,
    {
        match self {
            HalError::BusError(s) => HalError::BusError(s.clone()),
            HalError::UnexpectedDevice => HalError::UnexpectedDevice,
            HalError::ConfigurationError(s) => HalError::ConfigurationError(s.clone()),
            HalError::GpioError(s) => HalError::GpioError(s.clone()),
            HalError::ReadError(s) => HalError::ReadError(s.clone()),
            HalError::WriteError(s) => HalError::WriteError(s.clone()),
        }
    }
}

impl Clone for DriverError {
    fn clone(&self) -> (r: Self)
        ensures
            r == *self,
    {
        match self {
            DriverError::HalError(e) => DriverError::HalError(e.clone()),
            DriverError::SensorNotReady => DriverError::SensorNotReady,
            DriverError::CommunicationError(s) => DriverError::CommunicationError(s.clone()),
            DriverError::InvalidData => DriverError::InvalidData,
            DriverError::ConfigurationFailed => DriverError::ConfigurationFailed,
        }
    }
}

impl Clone for ComponentError {
    fn clone(&self) -> (r: Self)
        ensures
            r == *self,
    {
        match self {
            ComponentError::DriverError(e) => ComponentError::DriverError(e.clone()),
            ComponentError::LogicError(s) => ComponentError::LogicError(s.clone()),
            ComponentError::NotInitialized => ComponentError::NotInitialized,
        }
    }
}

impl Clone for RocketError {
    fn clone(&self) -> (r: Self)
        ensures
            r == *self,
    {
        match self {
            RocketError::Hal(e) => RocketError::Hal(e.clone()),
            RocketError::Driver(e) => RocketError::Driver(e.clone()),
            RocketError::Component(e) => RocketError::Component(e.clone()),
            RocketError::Kernel(s) => RocketError::Kernel(s.clone()),
            RocketError::Configuration(s) => RocketError::Configuration(s.clone()),
        }
    }
}

impl From<HalError> for DriverError {
    fn from(e: HalError) -> (r: Self) {
        DriverError::HalError(e)
    }
}

impl FromSpecImpl<HalError> for DriverError {
    open spec fn obeys_from_spec() -> bool {
        true
    }

    open spec fn from_spec(e: HalError) -> Self {
        DriverError::HalError(e)
    }
}

impl From<DriverError> for ComponentError {
    fn from(e: DriverError) -> (r: Self) {
        ComponentError::DriverError(e)
    }
}

impl FromSpecImpl<DriverError> for ComponentError {
    open spec fn obeys_from_spec() -> bool {
        true
    }

    open spec fn from_spec(e: DriverError) -> Self {
        ComponentError::DriverError(e)
    }
}

impl From<HalError> for RocketError {
    fn from(e: HalError) -> (r: Self) {
        RocketError::Hal(e)
    }
}

impl FromSpecImpl<HalError> for RocketError {
    open spec fn obeys_from_spec() -> bool {
        true
    }

    open spec fn from_spec(e: HalError) -> Self {
        RocketError::Hal(e)
    }
}

impl From<DriverError> for RocketError {
    fn from(e: DriverError) -> (r: Self) {
        RocketError::Driver(e)
    }
}

impl FromSpecImpl<DriverError> for RocketError {
    open spec fn obeys_from_spec() -> bool {
        true
    }

    open spec fn from_spec(e: DriverError) -> Self {
        RocketError::Driver(e)
    }
}

impl From<ComponentError> for RocketError {
    fn from(e: ComponentError) -> (r: Self) {
        RocketError::Component(e)
    }
}

impl FromSpecImpl<ComponentError> for RocketError {
    open spec fn obeys_from_spec() -> bool {
        true
    }

    open spec fn from_spec(e: ComponentError) -> Self {
        RocketError::Component(e)
    }
}

/// Upward conversion loses nothing: two faults that convert to the same
/// fault of the next level were the same fault, at every step of the ladder.
pub proof fn lemma_conversion_is_lossless(
    h1: HalError,
    h2: HalError,
    d1: DriverError,
    d2: DriverError,
    c1: ComponentError,
    c2: ComponentError,
)
    ensures
        <DriverError as FromSpec<HalError>>::from_spec(h1) == <DriverError as FromSpec<
            HalError,
        >>::from_spec(h2) ==> h1 == h2,
        <ComponentError as FromSpec<DriverError>>::from_spec(d1) == <ComponentError as FromSpec<
            DriverError,
        >>::from_spec(d2) ==> d1 == d2,
        <RocketError as FromSpec<HalError>>::from_spec(h1) == <RocketError as FromSpec<
            HalError,
        >>::from_spec(h2) ==> h1 == h2,
        <RocketError as FromSpec<DriverError>>::from_spec(d1) == <RocketError as FromSpec<
            DriverError,
        >>::from_spec(d2) ==> d1 == d2,
        <RocketError as FromSpec<ComponentError>>::from_spec(c1) == <RocketError as FromSpec<
            ComponentError,
        >>::from_spec(c2) ==> c1 == c2,
{
}

/// A fault that climbs the ladder one level at a time can be read back at
/// the top exactly as it was raised at the bottom.
pub proof fn lemma_embedded_fault_is_kept(h: HalError)
    ensures
        <RocketError as FromSpec<ComponentError>>::from_spec(
            <ComponentError as FromSpec<DriverError>>::from_spec(
                <DriverError as FromSpec<HalError>>::from_spec(h),
            ),
        ) == RocketError::Component(ComponentError::DriverError(DriverError::HalError(h))),
        <RocketError as FromSpec<DriverError>>::from_spec(
            <DriverError as FromSpec<HalError>>::from_spec(h),
        ) == RocketError::Driver(DriverError::HalError(h)),
        <RocketError as FromSpec<HalError>>::from_spec(h) == RocketError::Hal(h),
{
}

} // verus!
