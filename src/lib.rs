//! Front end of a command language for a hosting-provider shell: a tokenizer,
//! placeholder resolution against an injected environment, one grammar per
//! resource domain and a dispatcher that yields a typed command or a
//! classified error.
pub mod text;
pub mod words;
pub mod error;
pub mod env;
pub mod number;
pub mod grammar;
pub mod domain;
pub mod product;
pub mod invoice;
pub mod vps;
pub mod email;
pub mod dns;
pub mod command;
pub mod lines;
pub mod laws;
pub mod session;

pub use command::{OnError, TransipCommand};
pub use dns::{DnsCommand, DnsEntry, RecordType};
pub use domain::DomainCommand;
pub use email::EmailCommand;
pub use env::Environment;
pub use error::Error;
pub use invoice::{InvoiceAction, InvoiceCommand};
pub use lines::{FileLinesBuilder, TTYLinesBuilder};
pub use product::ProductCommand;
pub use session::{is_blank, Session, Step};
pub use text::CaseRule;
pub use vps::{VpsAction, VpsCommand};
pub use words::{split_in_first_rest, Words};
