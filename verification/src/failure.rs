//! Failures as chains of causes, outermost first.

use vstd::prelude::*;
use crate::text::texts;

verus! {

/// One link of a failure chain.
#[derive(Debug, PartialEq, Eq)]
pub struct Cause {
    /// What went wrong, for a human reader.
    pub message: String,
    /// Whether the HTTP transport reported it; such causes are kept out of
    /// the messages shown to callers.
    pub transport: bool,
}

/// The mathematical content of a [`Cause`].
pub struct CauseView {
    pub message: Seq<char>,
    pub transport: bool,
}

impl View for Cause {
    type V = CauseView;

    open spec fn view(&self) -> CauseView {
        CauseView { message: self.message@, transport: self.transport }
    }
}

impl Clone for Cause {
    fn clone(&self) -> (out: Self)
        ensures
            out@ == self@,
    {
        Cause { message: self.message.clone(), transport: self.transport }
    }
}

/// A cause reported by this crate's own logic.
pub open spec fn plain(message: Seq<char>) -> CauseView {
    CauseView { message, transport: false }
}

/// A cause reported by the HTTP transport.
pub open spec fn network(message: Seq<char>) -> CauseView {
    CauseView { message, transport: true }
}

/// The messages of the causes that callers may see, in chain order.
pub open spec fn visible_messages(chain: Seq<CauseView>) -> Seq<Seq<char>>
    decreases chain.len(),
{
    if chain.len() == 0 {
        Seq::empty()
    } else if chain.last().transport {
        visible_messages(chain.drop_last())
    } else {
        visible_messages(chain.drop_last()).push(chain.last().message)
    }
}

/// The messages that a caller is shown for a failure: the visible ones,
/// or, where the HTTP transport reported every cause, the one message
/// that the request failed. There is always at least one.
pub open spec fn shown_messages(chain: Seq<CauseView>) -> Seq<Seq<char>> {
    if visible_messages(chain).len() > 0 {
        visible_messages(chain)
    } else {
        seq!["request failed"@]
    }
}

/// Why an operation failed: the outermost description first, each
/// following cause explaining the one before it.
#[derive(Debug, PartialEq, Eq)]
pub struct Failure {
    pub causes: Vec<Cause>,
}

impl View for Failure {
    type V = Seq<CauseView>;

    open spec fn view(&self) -> Seq<CauseView> {
        self.causes@.map_values(|c: Cause| c@)
    }
}

impl Clone for Failure {
    fn clone(&self) -> (out: Self)
        ensures
            out@ == self@,
    {
        let mut causes: Vec<Cause> = Vec::new();
        let mut i: usize = 0;
        while i < self.causes.len()
            invariant
                i <= self.causes.len(),
                causes.len() == i,
                forall|k: int| 0 <= k < i ==> causes@[k]@ == self.causes@[k]@,
            decreases self.causes.len() - i,
        {
            causes.push(self.causes[i].clone());
            i += 1;
        }
        let out = Failure { causes };
        assert(out@ =~= self@);
        out
    }
}

impl Failure {
    /// A failure with a single cause of this crate's own.
    pub fn new(message: &str) -> (out: Failure)
        ensures
            out@ == seq![plain(message@)],
    {
        let mut causes: Vec<Cause> = Vec::new();
        causes.push(Cause { message: message.to_owned(), transport: false });
        let out = Failure { causes };
        assert(out@ =~= seq![plain(message@)]);
        out
    }

    /// A failure with a single cause reported by the HTTP transport.
    pub fn transport(message: &str) -> (out: Failure)
        ensures
            out@ == seq![network(message@)],
    {
        let mut causes: Vec<Cause> = Vec::new();
        causes.push(Cause { message: message.to_owned(), transport: true });
        let out = Failure { causes };
        assert(out@ =~= seq![network(message@)]);
        out
    }

    /// The same failure, described one level further out by `message`.
    pub fn context(self, message: &str) -> (out: Failure)
        ensures
            out@ == seq![plain(message@)] + self@,
    {
        let ghost before = self@;
        let mut causes = self.causes;
        causes.insert(0, Cause { message: message.to_owned(), transport: false });
        let out = Failure { causes };
        assert(out@ =~= seq![plain(message@)] + before);
        out
    }

    /// The messages that callers may see: those of the causes that the
    /// HTTP transport did not report, outermost first.
    pub fn messages(&self) -> (out: Vec<String>)
        ensures
            texts(out@) == visible_messages(self@),
    {
        let mut out: Vec<String> = Vec::new();
        let mut i: usize = 0;
        while i < self.causes.len()
            invariant
                i <= self.causes.len(),
                texts(out@) == visible_messages(self@.take(i as int)),
            decreases self.causes.len() - i,
        {
            assert(self@.take(i + 1).drop_last() =~= self@.take(i as int));
            if !self.causes[i].transport {
                out.push(self.causes[i].message.clone());
                assert(texts(out@) =~= visible_messages(self@.take(i as int)).push(
                    self@[i as int].message,
                ));
            }
            i += 1;
        }
        assert(self@.take(self.causes.len() as int) =~= self@);
        out
    }
}

} // verus!
