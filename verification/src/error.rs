//! Why a consumption failed, and where.

use vstd::prelude::*;

verus! {

/// The mathematical content of one reason for a failed consumption: its kind, the character
/// index at which it arose and, for an unexpected token, the character that was found.
pub enum Cause {
    /// The text ended at `index`, where more characters were expected.
    InsufficientTokens { index: nat },
    /// The character `token` stands at `index`, where it cannot stand.
    UnexpectedToken { index: nat, token: char },
    /// The value that starts at `index` was consumed and then rejected.
    InvalidValue { index: nat },
}

impl Cause {
    /// The character index at which the cause arose.
    pub open spec fn index(self) -> nat {
        match self {
            Cause::InsufficientTokens { index } => index,
            Cause::UnexpectedToken { index, .. } => index,
            Cause::InvalidValue { index } => index,
        }
    }

    /// The same cause, reported `by` characters further into the text.
    pub open spec fn shift(self, by: nat) -> Cause {
        match self {
            Cause::InsufficientTokens { index } => Cause::InsufficientTokens { index: index + by },
            Cause::UnexpectedToken { index, token } => Cause::UnexpectedToken {
                index: index + by,
                token,
            },
            Cause::InvalidValue { index } => Cause::InvalidValue { index: index + by },
        }
    }
}

/// Every cause of `causes`, in the same order, reported `by` characters further into the text.
pub open spec fn shift_all(causes: Seq<Cause>, by: nat) -> Seq<Cause> {
    causes.map_values(|cause: Cause| cause.shift(by))
}

/// Shifting by no characters changes nothing.
pub proof fn lemma_shift_all_zero(causes: Seq<Cause>)
    ensures
        shift_all(causes, 0) == causes,
{
}

/// No cause of `causes` lies beyond character index `limit`.
pub open spec fn all_within(causes: Seq<Cause>, limit: nat) -> bool {
    forall|i: int| 0 <= i < causes.len() ==> (#[trigger] causes[i]).index() <= limit
}

/// One reason for which consuming from a `source` failed.
///
/// Several of them can come out of a single consumption, one for each alternative that was
/// tried.
#[derive(Debug, PartialEq, Eq, Clone, Copy)]
pub enum ConsumeErrorType {
    /// More tokens were expected at `index`, but the source ended there.
    InsufficientTokens {
        /// The character index at which the source ended.
        index: usize,
    },
    /// The token at `index` is not one that can stand there.
    UnexpectedToken {
        /// The character index of the unexpected token.
        index: usize,
        /// The character that was found.
        token: char,
    },
    /// The tokens from `index` on were consumed, but the value they form is not allowed:
    /// a number that does not fit its type, or a value that a condition rejects.
    InvalidValue {
        /// The character index at which the rejected value starts.
        index: usize,
    },
}

impl View for ConsumeErrorType {
    type V = Cause;

    open spec fn view(&self) -> Cause {
        match *self {
            ConsumeErrorType::InsufficientTokens { index } => Cause::InsufficientTokens {
                index: index as nat,
            },
            ConsumeErrorType::UnexpectedToken { index, token } => Cause::UnexpectedToken {
                index: index as nat,
                token,
            },
            ConsumeErrorType::InvalidValue { index } => Cause::InvalidValue { index: index as nat },
        }
    }
}

impl ConsumeErrorType {
    /// The character index at which the error arose.
    pub fn index(&self) -> (index: &usize)
        ensures
            *index as nat == self@.index(),
    {
        match self {
            ConsumeErrorType::InsufficientTokens { index } => index,
            ConsumeErrorType::UnexpectedToken { index, token: _ } => index,
            ConsumeErrorType::InvalidValue { index } => index,
        }
    }

    /// The same error, reported `by` characters further into the source.
    pub fn offset(self, by: usize) -> (moved: Self)
        requires
            self@.index() + by <= usize::MAX,
        ensures
            moved@ == self@.shift(by as nat),
    {
        match self {
            ConsumeErrorType::InsufficientTokens { index } => ConsumeErrorType::InsufficientTokens {
                index: index + by,
            },
            ConsumeErrorType::UnexpectedToken { index, token } => ConsumeErrorType::UnexpectedToken {
                index: index + by,
                token,
            },
            ConsumeErrorType::InvalidValue { index } => ConsumeErrorType::InvalidValue {
                index: index + by,
            },
        }
    }
}

/// The reasons for which consuming from a `source` failed, in the order in which they arose.
#[derive(Debug, PartialEq)]
pub struct ConsumeError {
    causes: Vec<ConsumeErrorType>,
}

impl View for ConsumeError {
    type V = Seq<Cause>;

    closed spec fn view(&self) -> Seq<Cause> {
        self.causes@.map_values(|cause: ConsumeErrorType| cause@)
    }
}

impl ConsumeError {
    /// An error without any cause yet: what alternatives add their causes to.
    pub fn new() -> (error: ConsumeError)
        ensures
            error@ == Seq::<Cause>::empty(),
    {
        ConsumeError { causes: Vec::new() }
    }

    /// An error with `cause` as its only cause.
    pub fn new_with(cause: ConsumeErrorType) -> (error: ConsumeError)
        ensures
            error@ == seq![cause@],
    {
        let mut causes = Vec::new();
        causes.push(cause);
        ConsumeError { causes }
    }

    /// An error with exactly `causes`, in their order.
    pub fn new_from(causes: Vec<ConsumeErrorType>) -> (error: ConsumeError)
        ensures
            error@ == causes@.map_values(|cause: ConsumeErrorType| cause@),
    {
        ConsumeError { causes }
    }

    /// The same causes, each reported `by` characters further into the source.
    pub fn offset(self, by: usize) -> (moved: Self)
        requires
            forall|i: int| 0 <= i < self@.len() ==> (#[trigger] self@[i]).index() + by <= usize::MAX,
        ensures
            moved@ == shift_all(self@, by as nat),
    {
        let mut moved: Vec<ConsumeErrorType> = Vec::new();
        let mut i: usize = 0;
        while i < self.causes.len()
            invariant
                i <= self.causes.len(),
                moved@.len() == i,
                forall|j: int|
                    0 <= j < self@.len() ==> (#[trigger] self@[j]).index() + by <= usize::MAX,
                forall|j: int| 0 <= j < i ==> (#[trigger] moved@[j])@ == self@[j].shift(by as nat),
            decreases self.causes.len() - i,
        {
            assert(self@[i as int] == self.causes@[i as int]@);
            moved.push(self.causes[i].offset(by));
            i += 1;
        }
        ConsumeError { causes: moved }
    }

    /// Gives up the error for the list of its causes.
    pub fn into_causes(self) -> (causes: Vec<ConsumeErrorType>)
        ensures
            causes@.map_values(|cause: ConsumeErrorType| cause@) == self@,
    {
        self.causes
    }

    /// The causes of the error, by reference.
    pub fn causes(&self) -> (causes: Vec<&ConsumeErrorType>)
        ensures
            causes@.len() == self@.len(),
            forall|i: int| 0 <= i < causes@.len() ==> (#[trigger] causes@[i])@ == self@[i],
    {
        let mut causes: Vec<&ConsumeErrorType> = Vec::new();
        let mut i: usize = 0;
        while i < self.causes.len()
            invariant
                i <= self.causes.len(),
                causes@.len() == i,
                forall|j: int| 0 <= j < i ==> (#[trigger] causes@[j])@ == self@[j],
            decreases self.causes.len() - i,
        {
            causes.push(&self.causes[i]);
            i += 1;
        }
        causes
    }

    /// Adds `cause` after the causes that the error already has.
    pub fn add_cause(&mut self, cause: ConsumeErrorType)
        ensures
            final(self)@ == old(self)@.push(cause@),
    {
        self.causes.push(cause);
    }

    /// Adds the causes of `other_err`, in their order, after the causes that the error
    /// already has. None is dropped and none is reordered.
    pub fn add_causes(&mut self, other_err: ConsumeError)
        ensures
            final(self)@ == old(self)@ + other_err@,
    {
        let added = other_err.into_causes();
        let mut i: usize = 0;
        while i < added.len()
            invariant
                i <= added.len(),
                added@.map_values(|cause: ConsumeErrorType| cause@) == other_err@,
                self@ == old(self)@ + other_err@.take(i as int),
            decreases added.len() - i,
        {
            self.add_cause(added[i]);
            i += 1;
        }
    }
}

} // verus!
