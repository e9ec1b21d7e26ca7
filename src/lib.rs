//! A fixed-size bloom filter whose slot indices are drawn from one SHA-512
//! digest of each key, together with the plain data of a small
//! manifesto-summary client.
pub mod args;
pub mod bits;
pub mod bloom;
pub mod cursor;
pub mod digest;
pub mod laws;
pub mod openai;

pub use args::{parse_arg_paths, strip_trailing_newline, ArgPaths, Args, ArgsError};
pub use bloom::{derive_indices, BloomCheckResult, BloomFilter, CapacityError};
pub use cursor::DigestCursor;
pub use openai::{
    summary_request, OpenAiRequestBody, OpenAiRequestMessage, OpenAiResponse,
    OpenAiResponseMessage, OpenAiResponseMessageContent,
};
