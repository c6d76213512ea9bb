//! Error classification: deciding which failures should trip a circuit
//! breaker.
//!
//! A failure is described by an [`ErrorProfile`]: its display message,
//! whether it was explicitly marked as a system failure, and whether its
//! cause chain holds an infrastructure error (I/O, timeout, connection or
//! stream error). The default classifier gives the marker precedence,
//! then infrastructure causes, and treats everything else as an
//! application error.

use vstd::prelude::*;

use crate::errors::ErrorSeverity;

verus! {

/// Calls `std::io::Error`'s `Display`: the error's message. Nothing is
/// claimed of the text.
#[verifier::external_body]
pub(crate) fn io_error_text(error: &std::io::Error) -> String {
    error.to_string()
}

/// Calls `std::io::Error::kind` and renders the kind by its `Debug`
/// name (`Other`, `ConnectionRefused`, ...). Nothing is claimed of the
/// text.
#[verifier::external_body]
pub(crate) fn io_kind_name(error: &std::io::Error) -> String {
    format!("{:?}", error.kind())
}

/// What a classifier reads of a failure.
#[derive(Debug)]
pub struct ErrorProfile {
    /// The failure's display message (its outermost layer).
    pub message: String,
    /// The failure was explicitly marked as a system failure.
    pub system_failure: bool,
    /// The failure's cause chain holds an infrastructure error.
    pub infrastructure: bool,
    /// Where the outermost layer is an I/O error: the name of its kind.
    pub io_kind: Option<String>,
    /// The failure this one wraps, if any.
    pub source: Option<Box<ErrorProfile>>,
}

impl Clone for ErrorProfile {
    /// A copy of the failure and of its whole cause chain.
    fn clone(&self) -> (r: Self)
        ensures
            r == *self,
        decreases self,
    {
        let io_kind = match &self.io_kind {
            Some(kind) => Some(kind.clone()),
            None => None,
        };
        let source = match &self.source {
            Some(inner) => Some(Box::new((&**inner).clone())),
            None => None,
        };
        ErrorProfile {
            message: self.message.clone(),
            system_failure: self.system_failure,
            infrastructure: self.infrastructure,
            io_kind,
            source,
        }
    }
}

impl ErrorProfile {
    /// Classification by the default rules: the system-failure marker
    /// first, then infrastructure causes, then application.
    pub open spec fn default_severity(self) -> ErrorSeverity {
        if self.system_failure {
            ErrorSeverity::SystemFailure
        } else if self.infrastructure {
            ErrorSeverity::Infrastructure
        } else {
            ErrorSeverity::Application
        }
    }

    /// A plain failure built from a message, with no marker and no
    /// infrastructure cause.
    pub fn from_message(message: &str) -> (r: ErrorProfile)
        ensures
            r.message@ == message@,
            !r.system_failure,
            !r.infrastructure,
            r.io_kind is None,
            r.source is None,
    {
        ErrorProfile {
            message: message.to_owned(),
            system_failure: false,
            infrastructure: false,
            io_kind: None,
            source: None,
        }
    }

    /// A plain failure built from an owned message.
    pub fn from_message_string(message: String) -> (r: ErrorProfile)
        ensures
            r.message@ == message@,
            !r.system_failure,
            !r.infrastructure,
            r.io_kind is None,
            r.source is None,
    {
        ErrorProfile { message, system_failure: false, infrastructure: false, io_kind: None, source: None }
    }

    /// A failure whose cause is an infrastructure error (connection,
    /// stream or timeout) displaying `message`.
    pub fn from_io_error(message: &str) -> (r: ErrorProfile)
        ensures
            r.message@ == message@,
            !r.system_failure,
            r.infrastructure,
            r.io_kind is None,
            r.source is None,
    {
        ErrorProfile {
            message: message.to_owned(),
            system_failure: false,
            infrastructure: true,
            io_kind: None,
            source: None,
        }
    }

    /// The I/O error `error` as a failure: its message, its kind, and an
    /// infrastructure cause.
    pub fn from_io(error: &std::io::Error) -> (r: ErrorProfile)
        ensures
            !r.system_failure,
            r.infrastructure,
            r.io_kind is Some,
            r.source is None,
    {
        ErrorProfile {
            message: io_error_text(error),
            system_failure: false,
            infrastructure: true,
            io_kind: Some(io_kind_name(error)),
            source: None,
        }
    }

    /// A failure caused by an elapsed deadline.
    pub fn from_timeout() -> (r: ErrorProfile)
        ensures
            r.message@ == "deadline has elapsed"@,
            !r.system_failure,
            r.infrastructure,
            r.io_kind is None,
            r.source is None,
    {
        ErrorProfile::from_io_error("deadline has elapsed")
    }

    /// Wraps the failure in a layer of context: the context becomes the
    /// displayed message, the failure becomes its source, and the cause
    /// chain (marker, infrastructure causes and I/O kind included) is kept.
    pub fn context(self, context: &str) -> (r: ErrorProfile)
        ensures
            r.message@ == context@,
            r.system_failure == self.system_failure,
            r.infrastructure == self.infrastructure,
            r.io_kind == self.io_kind,
            r.source == Some(Box::new(self)),
    {
        let system_failure = self.system_failure;
        let infrastructure = self.infrastructure;
        let io_kind = match &self.io_kind {
            Some(kind) => Some(kind.clone()),
            None => None,
        };
        ErrorProfile {
            message: context.to_owned(),
            system_failure,
            infrastructure,
            io_kind,
            source: Some(Box::new(self)),
        }
    }
}

/// Extension methods for marking failures.
pub trait ErrorClassificationExt: Sized {
    /// Marks the failure as a system failure that trips the circuit breaker.
    fn as_system_failure(self) -> ErrorProfile;

    /// Marks the failure as an application error (the default).
    fn as_application_error(self) -> ErrorProfile;

    /// Alias for `as_application_error`.
    fn as_application(self) -> ErrorProfile;

    /// Re-raises the failure as an I/O error carrying its message, which
    /// makes it an infrastructure failure.
    fn as_infrastructure(self) -> ErrorProfile;
}

/// A failure explicitly marked as a system failure, wrapping its source.
#[derive(Clone, Debug)]
pub struct SystemFailureMarker {
    source: ErrorProfile,
}

impl SystemFailureMarker {
    /// The wrapped failure.
    pub closed spec fn spec_source(&self) -> ErrorProfile {
        self.source
    }

    /// Marks `source` as a system failure.
    pub fn new(source: ErrorProfile) -> (r: SystemFailureMarker)
        ensures
            r.spec_source() == source,
    {
        SystemFailureMarker { source }
    }

    /// The wrapped failure.
    pub fn source(&self) -> (r: &ErrorProfile)
        ensures
            *r == self.spec_source(),
    {
        &self.source
    }

    /// The display text: `System failure: ` and the source's message.
    pub fn text(&self) -> (r: String)
        ensures
            r@ == "System failure: "@ + self.spec_source().message@,
    {
        let mut message = "System failure: ".to_owned();
        message.append(self.source.message.as_str());
        proof {
            reveal_strlit("System failure: ");
        }
        message
    }

    /// The marked failure as a failure of its own: it displays the marker's
    /// text, carries the mark, keeps the source's causes and holds the
    /// source as its cause.
    pub fn into_error(self) -> (r: ErrorProfile)
        ensures
            r.message@ == "System failure: "@ + self.spec_source().message@,
            r.system_failure,
            r.infrastructure == self.spec_source().infrastructure,
            r.io_kind is None,
            r.source == Some(Box::new(self.spec_source())),
    {
        let message = self.text();
        let infrastructure = self.source.infrastructure;
        ErrorProfile {
            message,
            system_failure: true,
            infrastructure,
            io_kind: None,
            source: Some(Box::new(self.source)),
        }
    }
}

impl ErrorClassificationExt for ErrorProfile {
    fn as_system_failure(self) -> (r: ErrorProfile)
        ensures
            r.message@ == "System failure: "@ + self.message@,
            r.system_failure,
            r.infrastructure == self.infrastructure,
            r.io_kind is None,
            r.source == Some(Box::new(self)),
    {
        SystemFailureMarker::new(self).into_error()
    }

    /// Keeps the message and clears the system-failure mark and the
    /// infrastructure causes, so that the default rules answer
    /// `Application`.
    fn as_application_error(self) -> (r: ErrorProfile)
        ensures
            r.message@ == self.message@,
            !r.system_failure,
            !r.infrastructure,
            r.io_kind is None,
            r.source is None,
    {
        ErrorProfile::from_message_string(self.message)
    }

    fn as_application(self) -> (r: ErrorProfile)
        ensures
            r.message@ == self.message@,
            !r.system_failure,
            !r.infrastructure,
            r.io_kind is None,
            r.source is None,
    {
        self.as_application_error()
    }

    /// Re-raises the failure as an I/O error of kind `Other` carrying its
    /// message.
    fn as_infrastructure(self) -> (r: ErrorProfile)
        ensures
            r.message@ == self.message@,
            !r.system_failure,
            r.infrastructure,
            r.io_kind matches Some(kind) && kind@ == "Other"@,
            r.source is None,
    {
        ErrorProfile {
            message: self.message,
            system_failure: false,
            infrastructure: true,
            io_kind: Some("Other".to_owned()),
            source: None,
        }
    }
}

/// A user-supplied classification rule.
pub trait SeverityRule: Send + Sync {
    /// The rule may answer `severity` for `error`.
    spec fn answers(&self, error: ErrorProfile, severity: ErrorSeverity) -> bool;

    fn severity_of(&self, error: &ErrorProfile) -> (r: ErrorSeverity)
        ensures
            self.answers(*error, r),
    ;
}

/// Adapts a closure into a [`SeverityRule`].
pub struct RuleFn<F: Fn(&ErrorProfile) -> ErrorSeverity + Send + Sync> {
    f: F,
}

impl<F: Fn(&ErrorProfile) -> ErrorSeverity + Send + Sync> RuleFn<F> {
    #[verifier::type_invariant]
    spec fn callable(self) -> bool {
        forall|e: &ErrorProfile| #[trigger] self.f.requires((e,))
    }

    /// The closure the rule applies.
    pub closed spec fn closure(self) -> F {
        self.f
    }

    /// A rule that applies `f`.
    pub fn new(f: F) -> (r: Self)
        requires
            forall|e: &ErrorProfile| #[trigger] f.requires((e,)),
        ensures
            r.closure() == f,
    {
        RuleFn { f }
    }
}

impl<F: Fn(&ErrorProfile) -> ErrorSeverity + Send + Sync> SeverityRule for RuleFn<F> {
    /// What the closure may answer for `error`.
    open spec fn answers(&self, error: ErrorProfile, severity: ErrorSeverity) -> bool {
        self.closure().ensures((&error,), severity)
    }

    /// Answers what the closure answers for `error`.
    fn severity_of(&self, error: &ErrorProfile) -> (r: ErrorSeverity) {
        proof {
            use_type_invariant(self);
        }
        (self.f)(error)
    }
}

/// Strategy for classifying failures.
pub enum ErrorClassifier {
    /// Only infrastructure failures and marked system failures count.
    Default,
    /// Every failure counts as a system failure.
    AllErrors,
    /// A user-supplied rule decides.
    Custom(Box<dyn SeverityRule>),
}

impl ErrorClassifier {
    /// The default classifier.
    pub fn new() -> (r: ErrorClassifier)
        ensures
            r is Default,
    {
        ErrorClassifier::Default
    }

    /// A classifier that applies the closure `f`.
    pub fn custom<F: Fn(&ErrorProfile) -> ErrorSeverity + Send + Sync + 'static>(f: F) -> (r: ErrorClassifier)
        requires
            forall|e: &ErrorProfile| #[trigger] f.requires((e,)),
        ensures
            r matches ErrorClassifier::Custom(rule) ==> forall|e: ErrorProfile, s: ErrorSeverity|
                rule.answers(e, s) == f.ensures((&e,), s),
            r is Custom,
    {
        ErrorClassifier::Custom(Box::new(RuleFn::new(f)))
    }

    /// Classifies a failure. The default classifier follows
    /// [`ErrorProfile::default_severity`]; `AllErrors` always answers
    /// `SystemFailure`; a custom classifier answers what its rule answers.
    pub fn classify(&self, error: &ErrorProfile) -> (r: ErrorSeverity)
        ensures
            self is Default ==> r == error.default_severity(),
            self is AllErrors ==> r == ErrorSeverity::SystemFailure,
            self matches ErrorClassifier::Custom(rule) ==> rule.answers(*error, r),
    {
        match self {
            ErrorClassifier::Default => ErrorClassifier::default_classifier(error),
            ErrorClassifier::AllErrors => ErrorSeverity::SystemFailure,
            ErrorClassifier::Custom(rule) => rule.severity_of(error),
        }
    }

    /// The default classification rules.
    pub fn default_classifier(error: &ErrorProfile) -> (r: ErrorSeverity)
        ensures
            r == error.default_severity(),
    {
        if error.system_failure {
            return ErrorSeverity::SystemFailure;
        }
        if error.infrastructure {
            return ErrorSeverity::Infrastructure;
        }
        ErrorSeverity::Application
    }
}

impl Default for ErrorClassifier {
    fn default() -> (r: ErrorClassifier)
        ensures
            r is Default,
    {
        ErrorClassifier::Default
    }
}

} // verus!
