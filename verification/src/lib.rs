//! Verified core of an RPC framework over peer-to-peer QUIC connections:
//! error classification, per-peer circuit-breaker bookkeeping, request
//! routing, the server's and the client's protocol steps, retry
//! accounting, COBS message framing and JSON-RPC dispatch decisions.

pub mod errors;
pub mod classification;
pub mod circuit;
pub mod routing;
pub mod framing;
pub mod session;
pub mod exchange;
pub mod retry;
pub mod text;
pub mod jsonrpc;
pub mod lifecycle;
pub mod request_reply;
pub mod laws;

pub use errors::{ErrorSeverity, NotificationError, ResourceError, ResourceResultExt, ServiceError, SubscriptionError};
pub use classification::{ErrorClassificationExt, ErrorClassifier, ErrorProfile, SeverityRule, SystemFailureMarker};
pub use circuit::{BreakerFailure, CallOutcome, CircuitState, PeerId, PeerStates};
pub use routing::{NameMap, ResourceKind, ServiceBuilder, ServiceTable};
pub use framing::{FrameReader, FrameStep, IrohTransportError};
pub use session::{StreamAction, StreamEvent, StreamPhase, StreamSession};
pub use exchange::{Body, ClientError, ClientExchange, ExchangeAction, ExchangeEvent, ExchangePhase, NotificationMsg, Request, Response, SubscriptionMsg};
pub use retry::{ErrorPredicate, RetryMetrics, RetryRule};
pub use jsonrpc::{BatchRequestConfig, IrohTransportBuilder};
pub use lifecycle::{ShutdownError, TaskCount};
