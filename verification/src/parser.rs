use vstd::prelude::*;
use vstd::slice::{slice_subrange, slice_to_vec};
use vstd::utf8::{encode_utf8, valid_utf8};
use vstd::string::StringExecFns;
use vstd::string::StringSliceAdditionalSpecFns;

verus! {

/// Failure of the SQL parsing collaborator, one of the small set of kinds
/// the core consumes.
#[derive(Debug)]
pub enum ParserError {
    StackOverflow,
    SyntaxError { token_type: String, found: Option<String> },
    UnexpectedEof,
    Custom(String),
}

/// How a syntax error's found token reads inside its message: an absent
/// token reads `None`, a present one reads `Some("...")` with the token's
/// characters taken as they are.
pub open spec fn spec_found_text(found: Option<String>) -> Seq<char> {
    match found {
        None => "None"@,
        Some(s) => "Some(\""@ + s@ + "\")"@,
    }
}

impl ParserError {
    /// A human-readable account of the failure; a syntax error names the
    /// token type it stopped near and the token found there.
    pub fn message(&self) -> (r: String)
        ensures
            self is StackOverflow ==> r@ == "parser overflowed its stack"@,
            self is UnexpectedEof ==> r@ == "unexpected end of input"@,
            *self matches ParserError::SyntaxError { token_type, found } ==> r@ == "near "@
                + token_type@ + ", \""@ + spec_found_text(found) + "\": syntax error"@,
            self matches ParserError::Custom(m) ==> r@ == m@,
    {
        match self {
            ParserError::StackOverflow => String::from_str("parser overflowed its stack"),
            ParserError::SyntaxError { token_type, found } => {
                let mut m = String::from_str("near ");
                m.append(token_type.as_str());
                m.append(", \"");
                match found {
                    Some(f) => {
                        m.append("Some(\"");
                        m.append(f.as_str());
                        m.append("\")");
                    },
                    None => {
                        m.append("None");
                    },
                }
                m.append("\": syntax error");
                proof {
                    assert(m@ =~= "near "@ + token_type@ + ", \""@ + spec_found_text(*found)
                        + "\": syntax error"@);
                }
                m
            },
            ParserError::UnexpectedEof => String::from_str("unexpected end of input"),
            ParserError::Custom(m) => m.clone(),
        }
    }
}

/// Whether a statement is to be explained, and how.
pub enum ExplainKind {
    Explain,
    QueryPlan,
}

/// An identifier appearing in a statement, such as a constraint name.
pub struct Name(pub String);

/// One parsed SQL statement. The statement's own structure belongs to the
/// grammar collaborator; the core carries it opaquely.
pub struct Stmt {
    pub text: String,
}

/// A parsed command: a bare statement, or a statement under one of the
/// explain forms.
pub enum Cmd {
    Explain(Stmt),
    ExplainQueryPlan(Stmt),
    Stmt(Stmt),
}

/// One token as the tokenizer reports it: the byte offsets of its start
/// and end in the input.
pub struct Token {
    pub start: usize,
    pub end: usize,
}

/// Relies on `core::str::from_utf8`: succeeds exactly on valid UTF-8 (as
/// `vstd::utf8::valid_utf8` defines it), and the returned text views the
/// given bytes — its encoding is the input.
#[verifier::external_body]
fn utf8_from(b: &[u8]) -> (r: Option<&str>)
    ensures
        r is Some <==> valid_utf8(b@),
        r matches Some(s) ==> s.spec_bytes() == b@,
{
    core::str::from_utf8(b).ok()
}

/// The state the grammar-driven parser threads through one parse: the
/// input bytes, the pieces recognised so far, and the completion or error
/// outcome. The grammar rules themselves are the parsing collaborator's;
/// they drive this context through its methods and fields.
pub struct Context {
    pub input: Vec<u8>,
    pub explain: Option<ExplainKind>,
    pub stmt: Option<Stmt>,
    pub constraint_name: Option<Name>,
    pub module_arg: Option<(usize, usize)>,
    pub module_args: Option<Vec<String>>,
    pub done: bool,
    pub error: Option<ParserError>,
}

impl Context {
    /// Validity: a pending module-argument span lies within the input, so
    /// that completing it reads real text.
    pub open spec fn wf(&self) -> bool {
        self.module_arg matches Some((s, e)) ==> s <= e <= self.input@.len()
    }

    /// A fresh context over the given input, with nothing recognised yet.
    pub fn new(input: &[u8]) -> (r: Context)
        ensures
            r.wf(),
            r.input@ == input@,
            r.explain is None,
            r.stmt is None,
            r.constraint_name is None,
            r.module_arg is None,
            r.module_args is None,
            !r.done,
            r.error is None,
    {
        Context {
            input: slice_to_vec(input),
            explain: None,
            stmt: None,
            constraint_name: None,
            module_arg: None,
            module_args: None,
            done: false,
            error: None,
        }
    }

    /// Consume the parsed command: the recognised statement, wrapped in
    /// whichever explain form was recognised with it. Both pieces are
    /// taken; everything else stays.
    pub fn cmd(&mut self) -> (r: Option<Cmd>)
        ensures
            final(self).input == old(self).input,
            final(self).constraint_name == old(self).constraint_name,
            final(self).module_arg == old(self).module_arg,
            final(self).module_args == old(self).module_args,
            final(self).done == old(self).done,
            final(self).error == old(self).error,
            final(self).stmt is None,
            old(self).stmt is None ==> r is None && final(self).explain == old(self).explain,
            old(self).stmt matches Some(s) ==> final(self).explain is None && r == Some(
                match old(self).explain {
                    Some(ExplainKind::Explain) => Cmd::Explain(s),
                    Some(ExplainKind::QueryPlan) => Cmd::ExplainQueryPlan(s),
                    None => Cmd::Stmt(s),
                },
            ),
    {
        let stmt: Option<Stmt> = self.stmt.take();
        match stmt {
            Some(stmt) => {
                let explain: Option<ExplainKind> = self.explain.take();
                match explain {
                    Some(ExplainKind::Explain) => Some(Cmd::Explain(stmt)),
                    Some(ExplainKind::QueryPlan) => Some(Cmd::ExplainQueryPlan(stmt)),
                    None => Some(Cmd::Stmt(stmt)),
                }
            },
            None => None,
        }
    }

    /// Consume the pending constraint name.
    pub fn constraint_name(&mut self) -> (r: Option<Name>)
        ensures
            r == old(self).constraint_name,
            final(self).constraint_name is None,
            final(self).input == old(self).input,
            final(self).explain == old(self).explain,
            final(self).stmt == old(self).stmt,
            final(self).module_arg == old(self).module_arg,
            final(self).module_args == old(self).module_args,
            final(self).done == old(self).done,
            final(self).error == old(self).error,
    {
        self.constraint_name.take()
    }

    /// Whether no constraint name is pending.
    pub fn no_constraint_name(&self) -> (r: bool)
        ensures
            r == (self.constraint_name is None),
    {
        match &self.constraint_name {
            None => true,
            Some(_) => false,
        }
    }

    /// Begin a fresh module argument: any completed span is recorded
    /// first, and the pending span is cleared.
    pub fn vtab_arg_init(&mut self)
        requires
            old(self).wf(),
        ensures
            final(self).wf(),
            final(self).module_arg is None,
            module_args_after(*old(self), *final(self)),
            unchanged_but_module_fields(*old(self), *final(self)),
    {
        self.add_module_arg();
        self.module_arg = None;
    }

    /// Extend the pending module-argument span to cover the given token:
    /// begin one at the token if none is pending.
    pub fn vtab_arg_extend(&mut self, any: Token)
        requires
            old(self).wf(),
            any.start <= any.end <= old(self).input@.len(),
            old(self).module_arg matches Some((s, _)) ==> s <= any.end,
        ensures
            final(self).wf(),
            old(self).module_arg matches Some((s, _)) ==> final(self).module_arg == Some(
                (s, any.end),
            ) && s <= any.end,
            old(self).module_arg is None ==> final(self).module_arg == Some(
                (any.start, any.end),
            ),
            unchanged_but_module_fields(*old(self), *final(self)),
            final(self).module_args == old(self).module_args,
    {
        match self.module_arg {
            Some((start, _)) => {
                self.module_arg = Some((start, any.end));
            },
            None => {
                self.module_arg = Some((any.start, any.end));
            },
        }
    }

    /// Record the pending module-argument span, if any: its bytes are
    /// decoded as text and appended to the collected arguments; a span
    /// that is not valid UTF-8 is dropped.
    pub fn add_module_arg(&mut self)
        requires
            old(self).wf(),
        ensures
            final(self).wf(),
            final(self).module_arg is None,
            module_args_after(*old(self), *final(self)),
            unchanged_but_module_fields(*old(self), *final(self)),
    {
        let arg: Option<(usize, usize)> = self.module_arg.take();
        match arg {
            Some((start, end)) => {
                let piece: &[u8] = slice_subrange(self.input.as_slice(), start, end);
                match utf8_from(piece) {
                    Some(s) => {
                        let owned: String = s.to_owned();
                        match &mut self.module_args {
                            Some(v) => {
                                let ghost pv: Seq<String> = v@;
                                v.push(owned);
                                proof {
                                    assert(v@.subrange(0, pv.len() as int) =~= pv);
                                }
                            },
                            None => {
                                let mut v: Vec<String> = Vec::new();
                                v.push(owned);
                                self.module_args = Some(v);
                            },
                        }
                    },
                    None => {},
                }
            },
            None => {},
        }
    }

    /// Consume the collected module arguments, completing any pending
    /// span first.
    pub fn module_args(&mut self) -> (r: Option<Vec<String>>)
        requires
            old(self).wf(),
        ensures
            final(self).wf(),
            final(self).module_arg is None,
            final(self).module_args is None,
            unchanged_but_module_fields(*old(self), *final(self)),
            module_args_value_after(*old(self), r),
    {
        self.add_module_arg();
        self.module_args.take()
    }

    /// Report a parser diagnostic. The message is advisory; the context
    /// does not change.
    pub fn sqlite3_error_msg(&mut self, _msg: &str)
        ensures
            *final(self) == *old(self),
    {
    }

    /// Called once a single SQL statement has been fully parsed.
    pub fn sqlite3_finish_coding(&mut self)
        ensures
            final(self).done,
            final(self).input == old(self).input,
            final(self).explain == old(self).explain,
            final(self).stmt == old(self).stmt,
            final(self).constraint_name == old(self).constraint_name,
            final(self).module_arg == old(self).module_arg,
            final(self).module_args == old(self).module_args,
            final(self).error == old(self).error,
    {
        self.done = true;
    }

    /// Whether the parse has completed, successfully or with an error.
    pub fn done(&self) -> (r: bool)
        ensures
            r == (self.done || self.error is Some),
    {
        self.done || match &self.error {
            Some(_) => true,
            None => false,
        }
    }

    /// Whether no error has been recorded.
    pub fn is_ok(&self) -> (r: bool)
        ensures
            r == (self.error is None),
    {
        match &self.error {
            None => true,
            Some(_) => false,
        }
    }

    /// Consume the recorded parser error.
    pub fn error(&mut self) -> (r: Option<ParserError>)
        ensures
            r == old(self).error,
            final(self).error is None,
            final(self).input == old(self).input,
            final(self).explain == old(self).explain,
            final(self).stmt == old(self).stmt,
            final(self).constraint_name == old(self).constraint_name,
            final(self).module_arg == old(self).module_arg,
            final(self).module_args == old(self).module_args,
            final(self).done == old(self).done,
    {
        self.error.take()
    }

    /// Clear everything recognised, keeping the input, so that the next
    /// statement of the same text can be parsed.
    pub fn reset(&mut self)
        ensures
            final(self).wf(),
            final(self).input == old(self).input,
            final(self).explain is None,
            final(self).stmt is None,
            final(self).constraint_name is None,
            final(self).module_arg is None,
            final(self).module_args is None,
            !final(self).done,
            final(self).error is None,
    {
        self.explain = None;
        self.stmt = None;
        self.constraint_name = None;
        self.module_arg = None;
        self.module_args = None;
        self.done = false;
        self.error = None;
    }
}

/// The fields `add_module_arg` and its callers leave alone.
pub open spec fn unchanged_but_module_fields(pre: Context, post: Context) -> bool {
    &&& post.input == pre.input
    &&& post.explain == pre.explain
    &&& post.stmt == pre.stmt
    &&& post.constraint_name == pre.constraint_name
    &&& post.done == pre.done
    &&& post.error == pre.error
}

/// How recording the pending module-argument span changes the collected
/// arguments: no span, or one that is not valid UTF-8, changes nothing;
/// a valid span's text is appended, starting the collection if need be.
pub open spec fn module_args_after(pre: Context, post: Context) -> bool {
    module_args_value_after(pre, post.module_args)
}

/// The collected module arguments after recording the pending span.
pub open spec fn module_args_value_after(pre: Context, args: Option<Vec<String>>) -> bool {
    match pre.module_arg {
        None => args == pre.module_args,
        Some((s, e)) => {
            let piece = pre.input@.subrange(s as int, e as int);
            if valid_utf8(piece) {
                match pre.module_args {
                    None => args matches Some(v) && v@.len() == 1 && encode_utf8(
                        v@[0]@,
                    ) == piece,
                    Some(pv) => args matches Some(v) && v@.len() == pv@.len() + 1
                        && v@.subrange(0, pv@.len() as int) == pv@ && encode_utf8(
                        v@.last()@,
                    ) == piece,
                }
            } else {
                args == pre.module_args
            }
        },
    }
}

} // verus!
