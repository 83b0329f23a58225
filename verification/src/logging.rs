//! Structured log lines: a context of module, account and operation whose
//! rendered prefix is part of its contract. Writing the lines out happens
//! outside the library.

use vstd::prelude::*;
use vstd::string::StringExecFns;
use crate::text::i64_to_string;
use crate::text::spec_dec_i64;

verus! {

/// A log context: the module, and optionally the account and operation the
/// line concerns.
#[derive(Debug)]
pub struct LogContext {
    pub module: String,
    pub account_id: Option<i64>,
    pub operation: Option<String>,
}

impl LogContext {
    /// The rendered prefix: the parts joined with bracket separators.
    pub open spec fn spec_prefix(self) -> Seq<char> {
        let with_account = if self.account_id is Some {
            self.module@ + "]["@ + "account:"@ + spec_dec_i64(self.account_id->Some_0 as int)
        } else {
            self.module@
        };
        if self.operation is Some {
            with_account + "]["@ + self.operation->Some_0@
        } else {
            with_account
        }
    }

    /// A context naming only the module.
    pub fn new(module: &str) -> (r: LogContext)
        ensures
            r.module@ == module@,
            r.account_id is None,
            r.operation is None,
    {
        LogContext { module: String::from_str(module), account_id: None, operation: None }
    }

    /// The same context, bound to an account.
    pub fn with_account(self, account_id: i64) -> (r: LogContext)
        ensures
            r.module == self.module,
            r.account_id == Some(account_id),
            r.operation == self.operation,
    {
        LogContext { account_id: Some(account_id), ..self }
    }

    /// The same context, bound to an operation.
    pub fn with_operation(self, operation: &str) -> (r: LogContext)
        ensures
            r.module == self.module,
            r.account_id == self.account_id,
            (match r.operation {
                Some(op) => op@ == operation@,
                None => false,
            }),
    {
        LogContext { operation: Some(String::from_str(operation)), ..self }
    }

    /// Render the prefix.
    pub fn format_prefix(&self) -> (r: String)
        ensures
            r@ == self.spec_prefix(),
    {
        let mut out = self.module.clone();
        match self.account_id {
            Some(id) => {
                out.append("][");
                out.append("account:");
                out.append(i64_to_string(id).as_str());
            },
            None => {},
        }
        match &self.operation {
            Some(op) => {
                out.append("][");
                out.append(op.as_str());
            },
            None => {},
        }
        out
    }

    /// A full debug line: the bracketed prefix, then the message.
    pub fn debug(&self, message: &str) -> (r: String)
        ensures
            r@ == "["@ + self.spec_prefix() + "] "@ + message@,
    {
        self.render(message)
    }

    /// A full info line: the bracketed prefix, then the message.
    pub fn info(&self, message: &str) -> (r: String)
        ensures
            r@ == "["@ + self.spec_prefix() + "] "@ + message@,
    {
        self.render(message)
    }

    /// A full warning line: the bracketed prefix, then the message.
    pub fn warn(&self, message: &str) -> (r: String)
        ensures
            r@ == "["@ + self.spec_prefix() + "] "@ + message@,
    {
        self.render(message)
    }

    /// A full error line: the bracketed prefix, then the message.
    pub fn error(&self, message: &str) -> (r: String)
        ensures
            r@ == "["@ + self.spec_prefix() + "] "@ + message@,
    {
        self.render(message)
    }

    /// Render one line.
    fn render(&self, message: &str) -> (r: String)
        ensures
            r@ == "["@ + self.spec_prefix() + "] "@ + message@,
    {
        let mut out = String::from_str("[");
        out.append(self.format_prefix().as_str());
        out.append("] ");
        out.append(message);
        proof {
            assert(out@ =~= "["@ + self.spec_prefix() + "] "@ + message@);
        }
        out
    }
}

} // verus!
