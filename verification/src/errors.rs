//! The error model: a closed set of error kinds, a serializable error with a
//! cause chain, and the framework error type that every remote call returns on
//! failure.
//!
//! A cause chain carries only what survives serialization: the printed
//! description of each node and the linkage between them. Type identity and
//! backtraces are intentionally lost on the wire.

use vstd::prelude::*;

verus! {

/// The closed set of error categories of the framework.
#[derive(Clone, Copy, Debug, PartialEq, Eq, Structural)]
pub enum RPCErrorKind {
    /// An encode or decode failure, on either end, at any point.
    SerializationError,
    /// The server was asked to handle a method it does not declare.
    UnknownMethod,
    /// Everything else, including failures of the underlying byte source.
    Other,
}

/// A serializable error: a description and an optional cause, itself of the
/// same shape. Used as the cause chain of [`RPCError`].
#[derive(Debug)]
pub struct GenericSerializableError {
    description: String,
    cause: Option<Box<GenericSerializableError>>,
}

/// Mathematical model of an error value: its kind, its message, and the
/// descriptions of its cause chain, outermost first.
pub ghost struct ErrModel {
    pub kind: RPCErrorKind,
    pub msg: Seq<char>,
    pub chain: Seq<Seq<char>>,
}

impl GenericSerializableError {
    /// The descriptions of this error and of its causes, outermost first.
    /// Always non-empty.
    pub closed spec fn chain(&self) -> Seq<Seq<char>>
        decreases *self,
    {
        match self.cause {
            None => seq![self.description@],
            Some(c) => seq![self.description@] + c.chain(),
        }
    }

    pub proof fn lemma_chain_nonempty(&self)
        ensures
            self.chain().len() >= 1,
    {
    }

    /// Build an error from its printed description and an optional,
    /// already-flattened cause.
    pub fn new(description: String, cause: Option<GenericSerializableError>) -> (r: Self)
        ensures
            r.chain() == (match cause {
                None => seq![description@],
                Some(c) => seq![description@] + c.chain(),
            }),
    {
        match cause {
            None => GenericSerializableError { description, cause: None },
            Some(c) => GenericSerializableError { description, cause: Some(Box::new(c)) },
        }
    }

    /// Build the whole chain from the flattened descriptions of an ambient
    /// error source, outermost first. The walk over a possibly cyclic source
    /// graph happens before this call and must hand over a finite list, which
    /// is what makes the construction terminate.
    pub fn from_dyn(descriptions: &Vec<String>) -> (r: Self)
        requires
            descriptions.len() >= 1,
        ensures
            r.chain() == descriptions@.map_values(|s: String| s@),
    {
        let ghost all = descriptions@.map_values(|s: String| s@);
        let n = descriptions.len();
        let mut i: usize = n - 1;
        let mut e = GenericSerializableError::new(descriptions[i].clone(), None);
        proof {
            assert(e.chain() =~= all.subrange(i as int, n as int));
        }
        while i > 0
            invariant
                i < n,
                n == descriptions.len(),
                all == descriptions@.map_values(|s: String| s@),
                e.chain() == all.subrange(i as int, n as int),
            decreases i,
        {
            i = i - 1;
            e = GenericSerializableError::new(descriptions[i].clone(), Some(e));
            proof {
                assert(e.chain() =~= all.subrange(i as int, n as int));
            }
        }
        proof {
            assert(all.subrange(0, n as int) =~= all);
        }
        e
    }

    /// The printed description of this error alone, without its causes.
    pub fn description(&self) -> (r: &String)
        ensures
            r@ == self.chain()[0],
    {
        &self.description
    }

    /// The cause of this error, if any.
    pub fn cause(&self) -> (r: Option<&GenericSerializableError>)
        ensures
            match r {
                None => self.chain().len() == 1,
                Some(c) => self.chain() == seq![self.chain()[0]] + c.chain(),
            },
    {
        match self.cause {
            None => None,
            Some(ref c) => Some(c),
        }
    }

    /// The printed form of the whole chain.
    pub closed spec fn display_model(&self) -> Seq<char>
        decreases *self,
    {
        match self.cause {
            None => self.description@,
            Some(c) => self.description@ + " caused by:\n "@ + c.display_model(),
        }
    }

    /// Render the error and its causes as text.
    pub fn display_string(&self) -> (r: String)
        ensures
            r@ == self.display_model(),
        decreases *self,
    {
        match self.cause {
            None => self.description.clone(),
            Some(ref c) => {
                let tail = c.display_string();
                self.description.clone().concat(" caused by:\n ").concat(tail.as_str())
            }
        }
    }
}

/// The printed form of a chain of descriptions: each one joined to the next
/// by the cause separator.
pub open spec fn chain_display(chain: Seq<Seq<char>>) -> Seq<char>
    decreases chain.len(),
{
    if chain.len() == 0 {
        Seq::empty()
    } else if chain.len() == 1 {
        chain[0]
    } else {
        chain[0] + " caused by:\n "@ + chain_display(chain.drop_first())
    }
}

impl GenericSerializableError {
    /// The printed form is exactly the chain's descriptions joined by the
    /// cause separator: everything about the rendered text follows from the
    /// chain.
    pub proof fn lemma_display_follows_chain(&self)
        ensures
            self.display_model() == chain_display(self.chain()),
        decreases *self,
    {
        match self.cause {
            None => {},
            Some(c) => {
                c.lemma_display_follows_chain();
                assert((seq![self.description@] + c.chain()).drop_first() =~= c.chain());
                assert((seq![self.description@] + c.chain())[0] == self.description@);
                c.lemma_chain_nonempty();
            },
        }
    }
}

/// The framework error. All remote methods return an error type constructible
/// from this one.
#[derive(Debug)]
pub struct RPCError {
    pub kind: RPCErrorKind,
    msg: String,
    cause: Option<Box<GenericSerializableError>>,
}

impl View for RPCError {
    type V = ErrModel;

    closed spec fn view(&self) -> ErrModel {
        ErrModel {
            kind: self.kind,
            msg: self.msg@,
            chain: match self.cause {
                None => Seq::empty(),
                Some(c) => c.chain(),
            },
        }
    }
}

impl RPCError {
    /// New error without a cause.
    pub fn new(kind: RPCErrorKind, msg: String) -> (r: Self)
        ensures
            r@ == (ErrModel { kind, msg: msg@, chain: Seq::empty() }),
    {
        RPCError { kind, msg, cause: None }
    }

    /// New error with a cause.
    pub fn with_cause(kind: RPCErrorKind, msg: String, cause: GenericSerializableError) -> (r: Self)
        ensures
            r@ == (ErrModel { kind, msg: msg@, chain: cause.chain() }),
    {
        RPCError { kind, msg, cause: Some(Box::new(cause)) }
    }

    /// Get the cause of the error (if any).
    pub fn cause(&self) -> (r: Option<&GenericSerializableError>)
        ensures
            match r {
                None => self@.chain.len() == 0,
                Some(c) => c.chain() == self@.chain,
            },
    {
        match self.cause {
            None => None,
            Some(ref c) => Some(c),
        }
    }

    /// The message the error was made with.
    pub fn message(&self) -> (r: &String)
        ensures
            r@ == self@.msg,
    {
        &self.msg
    }

    /// The printed form of the error: its message, then its causes.
    pub closed spec fn display_model(&self) -> Seq<char> {
        match self.cause {
            None => self.msg@,
            Some(c) => self.msg@ + " caused by:\n "@ + c.display_model(),
        }
    }

    /// Render the error as text.
    pub fn display_string(&self) -> (r: String)
        ensures
            r@ == self.display_model(),
    {
        match self.cause {
            None => self.msg.clone(),
            Some(ref c) => {
                let tail = c.display_string();
                self.msg.clone().concat(" caused by:\n ").concat(tail.as_str())
            }
        }
    }

    /// The message always prefixes the printed form.
    pub proof fn lemma_display_starts_with_message(&self)
        ensures
            self.display_model().len() >= self@.msg.len(),
            self.display_model().subrange(0, self@.msg.len() as int) == self@.msg,
    {
        assert(self.display_model().subrange(0, self@.msg.len() as int) =~= self@.msg);
    }

    /// The printed form is the message, then the cause chain joined by the
    /// cause separator: everything about the rendered text follows from the
    /// error's model.
    pub proof fn lemma_display_follows_model(&self)
        ensures
            self@.chain.len() == 0 ==> self.display_model() == self@.msg,
            self@.chain.len() > 0 ==> self.display_model() == self@.msg + " caused by:\n "@
                + chain_display(self@.chain),
    {
        match self.cause {
            None => {},
            Some(c) => {
                c.lemma_display_follows_chain();
                c.lemma_chain_nonempty();
            },
        }
    }
}

} // verus!
