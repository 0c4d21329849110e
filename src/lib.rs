pub mod api;
pub mod common;
pub mod decode;
pub mod envelope;
pub mod error;
pub mod json;
pub mod laws;
pub mod number;
pub mod signer;
pub mod text;

pub use api::{OrderError, PrivateApi, PublicApi, SignedRequest};
pub use common::{CandleType, OrderSide, OrderType};
pub use decode::{CandleStick, CandleStickInfo, DepthInfo, TickerInfo, Tickers, TransactionInfo, Transactions};
pub use envelope::check_envelope;
pub use error::{ApiError, DecodeError};
pub use json::JsonValue;
pub use number::{coerce_float, coerce_uint, Float};
pub use signer::{gen_nonce, sign, u8_to_string, AuthHeaders, NonceCounter};
