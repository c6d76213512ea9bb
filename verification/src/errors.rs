//! Error types shared by the server, the client and the circuit breaker.

use vstd::prelude::*;

use crate::classification::ErrorProfile;

verus! {

/// How serious a failure is, which decides whether it counts against a
/// peer's circuit breaker.
#[derive(PartialEq, Eq, Structural, Clone, Copy, Debug)]
pub enum ErrorSeverity {
    /// Business-logic failure (validation, not found, permissions).
    Application,
    /// Network, I/O or timeout failure.
    Infrastructure,
    /// A critical dependency is unavailable.
    SystemFailure,
}

/// Whether a failure of this severity is counted by a circuit breaker.
pub open spec fn severity_trips_circuit(s: ErrorSeverity) -> bool {
    s != ErrorSeverity::Application
}

/// A failure seen by the circuit breaker, carrying its classification.
#[derive(Clone, Debug)]
pub enum ServiceError {
    /// Application-level error (validation, business logic).
    Application(String),
    /// Infrastructure error (network, timeout, I/O).
    Infrastructure(String),
    /// System failure (database, critical service).
    SystemFailure(String),
}

impl ServiceError {
    /// The severity carried by the variant.
    pub open spec fn spec_severity(self) -> ErrorSeverity {
        match self {
            ServiceError::Application(_) => ErrorSeverity::Application,
            ServiceError::Infrastructure(_) => ErrorSeverity::Infrastructure,
            ServiceError::SystemFailure(_) => ErrorSeverity::SystemFailure,
        }
    }

    /// The message carried by the variant.
    pub open spec fn spec_message(self) -> Seq<char> {
        match self {
            ServiceError::Application(m) => m@,
            ServiceError::Infrastructure(m) => m@,
            ServiceError::SystemFailure(m) => m@,
        }
    }

    pub fn severity(&self) -> (r: ErrorSeverity)
        ensures
            r == self.spec_severity(),
    {
        match self {
            ServiceError::Application(_) => ErrorSeverity::Application,
            ServiceError::Infrastructure(_) => ErrorSeverity::Infrastructure,
            ServiceError::SystemFailure(_) => ErrorSeverity::SystemFailure,
        }
    }

    /// Builds the variant for a severity around a message.
    pub fn with_severity(severity: ErrorSeverity, message: String) -> (r: ServiceError)
        ensures
            r.spec_severity() == severity,
            r.spec_message() == message@,
    {
        match severity {
            ErrorSeverity::Application => ServiceError::Application(message),
            ErrorSeverity::Infrastructure => ServiceError::Infrastructure(message),
            ErrorSeverity::SystemFailure => ServiceError::SystemFailure(message),
        }
    }

    /// Converts a failure into a `ServiceError`, classifying it with the
    /// default classifier and keeping its message.
    pub fn from_error(error: ErrorProfile) -> (r: ServiceError)
        ensures
            r.spec_severity() == error.default_severity(),
            r.spec_message() == error.message@,
    {
        let severity = crate::classification::ErrorClassifier::default_classifier(&error);
        ServiceError::with_severity(severity, error.message)
    }
}

/// Errors returned by RPC resources and by the router.
#[derive(Clone, Debug)]
pub enum ResourceError {
    /// No service of that name is registered.
    ServiceNotFound { service: String },
    /// The service exists but has no resource of that name.
    ResourceNotFound { service: String, resource: String },
    /// A handler failed.
    CallbackError { message: String, severity: ErrorSeverity, context: Option<String> },
    /// A value could not be serialized or deserialized.
    SerializationError(String),
    /// The peer's circuit breaker rejected the call.
    CircuitBreakerOpen { peer_id: String },
}

impl ResourceError {
    /// The severity of the error: a callback error carries its own, a
    /// rejection by an open circuit is an infrastructure failure, and the
    /// routing and serialization errors are application errors.
    pub open spec fn spec_severity(self) -> ErrorSeverity {
        match self {
            ResourceError::CallbackError { severity, .. } => severity,
            ResourceError::CircuitBreakerOpen { .. } => ErrorSeverity::Infrastructure,
            _ => ErrorSeverity::Application,
        }
    }

    pub fn severity(&self) -> (r: ErrorSeverity)
        ensures
            r == self.spec_severity(),
    {
        match self {
            ResourceError::CallbackError { severity, .. } => *severity,
            ResourceError::CircuitBreakerOpen { .. } => ErrorSeverity::Infrastructure,
            _ => ErrorSeverity::Application,
        }
    }

    /// Whether `self` is a callback error with the given message and
    /// severity and no context.
    pub open spec fn is_callback_error(self, message: Seq<char>, severity: ErrorSeverity) -> bool {
        &&& self matches ResourceError::CallbackError { message: m, severity: s, context: c }
        &&& m@ == message
        &&& s == severity
        &&& c is None
    }

    /// A callback error of the given severity carrying the error's message.
    pub fn from_error(error: ErrorProfile, severity: ErrorSeverity) -> (r: ResourceError)
        ensures
            r.is_callback_error(error.message@, severity),
    {
        ResourceError::CallbackError { message: error.message, severity, context: None }
    }

    /// An application-level callback error.
    pub fn app(error: ErrorProfile) -> (r: ResourceError)
        ensures
            r.is_callback_error(error.message@, ErrorSeverity::Application),
    {
        ResourceError::from_error(error, ErrorSeverity::Application)
    }

    /// An infrastructure-level callback error.
    pub fn infra(error: ErrorProfile) -> (r: ResourceError)
        ensures
            r.is_callback_error(error.message@, ErrorSeverity::Infrastructure),
    {
        ResourceError::from_error(error, ErrorSeverity::Infrastructure)
    }

    /// A system-failure callback error.
    pub fn system(error: ErrorProfile) -> (r: ResourceError)
        ensures
            r.is_callback_error(error.message@, ErrorSeverity::SystemFailure),
    {
        ResourceError::from_error(error, ErrorSeverity::SystemFailure)
    }
}

impl ServiceError {
    /// The display text of the error.
    pub open spec fn spec_text(self) -> Seq<char> {
        match self {
            ServiceError::Application(m) => "Application error: "@ + m@,
            ServiceError::Infrastructure(m) => "Infrastructure error: "@ + m@,
            ServiceError::SystemFailure(m) => "System failure: "@ + m@,
        }
    }

    /// The display text of the error.
    pub fn text(&self) -> (r: String)
        ensures
            r@ == self.spec_text(),
    {
        let (prefix, m) = match self {
            ServiceError::Application(m) => ("Application error: ", m),
            ServiceError::Infrastructure(m) => ("Infrastructure error: ", m),
            ServiceError::SystemFailure(m) => ("System failure: ", m),
        };
        let mut r = prefix.to_owned();
        r.append(m.as_str());
        proof {
            reveal_strlit("Application error: ");
            reveal_strlit("Infrastructure error: ");
            reveal_strlit("System failure: ");
        }
        r
    }
}

impl ResourceError {
    /// The display text of the error.
    pub open spec fn spec_text(self) -> Seq<char> {
        match self {
            ResourceError::ServiceNotFound { service } => "Service '"@ + service@ + "' not found"@,
            ResourceError::ResourceNotFound { service, resource } =>
                "Resource '"@ + resource@ + "' not found in service '"@ + service@ + "'"@,
            ResourceError::CallbackError { message, .. } => "Callback execution failed: "@ + message@,
            ResourceError::SerializationError(m) => "Serialization error: "@ + m@,
            ResourceError::CircuitBreakerOpen { peer_id } => "Circuit breaker open for peer "@ + peer_id@,
        }
    }

    /// The display text of the error.
    pub fn text(&self) -> (r: String)
        ensures
            r@ == self.spec_text(),
    {
        match self {
            ResourceError::ServiceNotFound { service } => {
                let mut r = "Service '".to_owned();
                r.append(service.as_str());
                r.append("' not found");
                r
            },
            ResourceError::ResourceNotFound { service, resource } => {
                let mut r = "Resource '".to_owned();
                r.append(resource.as_str());
                r.append("' not found in service '");
                r.append(service.as_str());
                r.append("'");
                r
            },
            ResourceError::CallbackError { message, .. } => {
                let mut r = "Callback execution failed: ".to_owned();
                r.append(message.as_str());
                r
            },
            ResourceError::SerializationError(m) => {
                let mut r = "Serialization error: ".to_owned();
                r.append(m.as_str());
                r
            },
            ResourceError::CircuitBreakerOpen { peer_id } => {
                let mut r = "Circuit breaker open for peer ".to_owned();
                r.append(peer_id.as_str());
                r
            },
        }
    }
}

/// Converts the error of a handler result into a `ResourceError` of a
/// chosen severity.
pub trait ResourceResultExt<T>: Sized {
    fn to_app_error(self) -> Result<T, ResourceError>;

    fn to_infra_error(self) -> Result<T, ResourceError>;

    fn to_system_error(self) -> Result<T, ResourceError>;
}

/// The result of mapping a failed result's error to a callback error of
/// the given severity, successes passing through.
pub open spec fn mapped_result<T>(
    input: Result<T, ErrorProfile>,
    output: Result<T, ResourceError>,
    severity: ErrorSeverity,
) -> bool {
    match input {
        Ok(v) => output == Ok::<T, ResourceError>(v),
        Err(e) => output matches Err(r) && r.is_callback_error(e.message@, severity),
    }
}

fn map_result_error<T>(r: Result<T, ErrorProfile>, severity: ErrorSeverity) -> (out: Result<T, ResourceError>)
    ensures
        mapped_result(r, out, severity),
{
    match r {
        Ok(v) => Ok(v),
        Err(e) => Err(ResourceError::from_error(e, severity)),
    }
}

impl<T> ResourceResultExt<T> for Result<T, ErrorProfile> {
    fn to_app_error(self) -> (out: Result<T, ResourceError>)
        ensures
            mapped_result(self, out, ErrorSeverity::Application),
            self is Err ==> (out matches Err(ResourceError::CallbackError { severity: s, .. }) && s
                == ErrorSeverity::Application),
            self is Ok ==> out is Ok,
    {
        map_result_error(self, ErrorSeverity::Application)
    }

    fn to_infra_error(self) -> (out: Result<T, ResourceError>)
        ensures
            mapped_result(self, out, ErrorSeverity::Infrastructure),
            self is Err ==> (out matches Err(ResourceError::CallbackError { severity: s, .. }) && s
                == ErrorSeverity::Infrastructure),
            self is Ok ==> out is Ok,
    {
        map_result_error(self, ErrorSeverity::Infrastructure)
    }

    fn to_system_error(self) -> (out: Result<T, ResourceError>)
        ensures
            mapped_result(self, out, ErrorSeverity::SystemFailure),
            self is Err ==> (out matches Err(ResourceError::CallbackError { severity: s, .. }) && s
                == ErrorSeverity::SystemFailure),
            self is Ok ==> out is Ok,
    {
        map_result_error(self, ErrorSeverity::SystemFailure)
    }
}

/// Errors that can occur when sending subscription messages.
#[derive(Clone, Debug)]
pub enum SubscriptionError {
    Serialization(String),
    Send(String),
}

/// Errors that can occur when handling notifications.
#[derive(Clone, Debug)]
pub enum NotificationError {
    Serialization(String),
    Deserialization(String),
    Send(String),
    Receive(String),
    Protocol(String),
}

/// `prefix` followed by `body`, as an owned string.
fn prefixed(prefix: &str, body: &str) -> (r: String)
    ensures
        r@ == prefix@ + body@,
{
    let mut r = prefix.to_owned();
    r.append(body);
    r
}

impl SubscriptionError {
    /// The display text of the error.
    pub fn text(&self) -> (r: String)
        ensures
            r@ == match self {
                SubscriptionError::Serialization(m) => "Serialization error: "@ + m@,
                SubscriptionError::Send(m) => "Send error: "@ + m@,
            },
    {
        proof {
            reveal_strlit("Serialization error: ");
            reveal_strlit("Send error: ");
        }
        match self {
            SubscriptionError::Serialization(m) => prefixed("Serialization error: ", m.as_str()),
            SubscriptionError::Send(m) => prefixed("Send error: ", m.as_str()),
        }
    }
}

impl NotificationError {
    /// The display text of the error.
    pub fn text(&self) -> (r: String)
        ensures
            r@ == match self {
                NotificationError::Serialization(m) => "Serialization error: "@ + m@,
                NotificationError::Deserialization(m) => "Deserialization error: "@ + m@,
                NotificationError::Send(m) => "Send error: "@ + m@,
                NotificationError::Receive(m) => "Receive error: "@ + m@,
                NotificationError::Protocol(m) => "Protocol error: "@ + m@,
            },
    {
        proof {
            reveal_strlit("Serialization error: ");
            reveal_strlit("Deserialization error: ");
            reveal_strlit("Send error: ");
            reveal_strlit("Receive error: ");
            reveal_strlit("Protocol error: ");
        }
        match self {
            NotificationError::Serialization(m) => prefixed("Serialization error: ", m.as_str()),
            NotificationError::Deserialization(m) => prefixed("Deserialization error: ", m.as_str()),
            NotificationError::Send(m) => prefixed("Send error: ", m.as_str()),
            NotificationError::Receive(m) => prefixed("Receive error: ", m.as_str()),
            NotificationError::Protocol(m) => prefixed("Protocol error: ", m.as_str()),
        }
    }
}

} // verus!
