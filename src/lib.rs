//! Compiles multi-timeframe candle snapshots into an analysis prompt, frames
//! the request to a text-completion service and reads its reply.
//!
//! Everything here is pure: I/O (the HTTP listener, the completion call, the
//! audit files, the strategy document) stays with the caller, which hands the
//! library plain values and takes plain values back.

pub mod audit;
pub mod clock;
pub mod completion;
pub mod digits;
pub mod format;
pub mod model;
pub mod prompt;
pub mod response;

pub use completion::{
    check_status, completion_url, extract_text, model_or_default, read_reply, request_body, Candidate,
    CompletionError, Content, GeminiResponse, Part, API_ERROR_PREFIX, DEFAULT_MODEL, NO_ANALYSIS,
};
pub use audit::{data_log_path, prompt_log_path, DATA_LOG_DIR, PROMPT_LOG_DIR};
pub use clock::{current_time, format_time, log_stamp, year_string};
pub use digits::{decimal_string, fixed_digits, signed_string};
pub use format::{format_candle, format_candles, price_string};
pub use prompt::{compile_prompt, resolve_directive, Directive, COLUMNS, FALLBACK_DIRECTIVE};
pub use model::{Candle, LocalTime, Mt4Data, Price};
pub use response::{respond, AnalysisResponse};
