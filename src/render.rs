use vstd::prelude::*;

use crate::error::SsrError;

verus! {

/// What calling one registered function came to.
pub enum CallOutcome {
    /// The call threw, or could not be made.
    Threw,
    /// It returned a value that is not a promise: the value's string form,
    /// where it has one.
    Returned(Option<String>),
    /// It returned a promise that was rejected.
    Rejected,
    /// It returned a promise that was fulfilled with null or undefined.
    FulfilledEmpty,
    /// It returned a promise that was fulfilled with another value: that
    /// value's string form, where it has one.
    Fulfilled(Option<String>),
}

/// The text one call adds to the output, or the error it ends the render with.
pub open spec fn piece(o: CallOutcome) -> Result<Seq<char>, SsrError> {
    match o {
        CallOutcome::Threw => Err(SsrError::CallFailure),
        CallOutcome::Returned(Some(s)) => Ok(s@),
        CallOutcome::Fulfilled(Some(s)) => Ok(s@),
        CallOutcome::Returned(None) => Err(SsrError::StringCoercionFailure),
        CallOutcome::Fulfilled(None) => Err(SsrError::StringCoercionFailure),
        CallOutcome::Rejected => Err(SsrError::PromiseRejected),
        CallOutcome::FulfilledEmpty => Err(SsrError::PromiseRejected),
    }
}

/// The result of a render whose calls came to `outcomes`, in order: the
/// concatenation of their texts, or the error of the first that failed.
pub open spec fn render_outcome(outcomes: Seq<CallOutcome>) -> Result<Seq<char>, SsrError>
    decreases outcomes.len(),
{
    if outcomes.len() == 0 {
        Ok(Seq::<char>::empty())
    } else {
        match render_outcome(outcomes.drop_last()) {
            Err(e) => Err(e),
            Ok(done) => match piece(outcomes.last()) {
                Err(e) => Err(e),
                Ok(p) => Ok(done + p),
            },
        }
    }
}

proof fn lemma_all_succeed(outcomes: Seq<CallOutcome>)
    requires
        forall|j: int| 0 <= j < outcomes.len() ==> (#[trigger] piece(outcomes[j])).is_ok(),
    ensures
        render_outcome(outcomes).is_ok(),
    decreases outcomes.len(),
{
    if outcomes.len() > 0 {
        let d = outcomes.drop_last();
        assert forall|j: int| 0 <= j < d.len() implies (#[trigger] piece(d[j])).is_ok() by {
            assert(d[j] == outcomes[j]);
        }
        lemma_all_succeed(d);
        assert(piece(outcomes[outcomes.len() - 1]).is_ok());
    }
}

/// A function that returns a string, alone in the registry, renders to
/// exactly that string.
pub proof fn single_function_renders_its_text(text: String)
    ensures
        render_outcome(seq![CallOutcome::Returned(Some(text))]) == Ok::<Seq<char>, SsrError>(text@),
{
    let o = seq![CallOutcome::Returned(Some(text))];
    assert(o.drop_last() =~= Seq::<CallOutcome>::empty());
    assert(render_outcome(o.drop_last()) == Ok::<Seq<char>, SsrError>(Seq::<char>::empty()));
    assert(o.last() == CallOutcome::Returned(Some(text)));
    assert(Seq::<char>::empty() + text@ =~= text@);
}

/// A call that fails, after calls that all succeeded, ends the render with
/// its error, whatever the calls after it would have come to.
pub proof fn first_failure_ends_render(outcomes: Seq<CallOutcome>, i: int, e: SsrError)
    requires
        0 <= i < outcomes.len(),
        forall|j: int| 0 <= j < i ==> (#[trigger] piece(outcomes[j])).is_ok(),
        piece(outcomes[i]) == Err::<Seq<char>, SsrError>(e),
    ensures
        render_outcome(outcomes) == Err::<Seq<char>, SsrError>(e),
    decreases outcomes.len(),
{
    let d = outcomes.drop_last();
    if i == outcomes.len() - 1 {
        assert forall|j: int| 0 <= j < d.len() implies (#[trigger] piece(d[j])).is_ok() by {
            assert(d[j] == outcomes[j]);
        }
        lemma_all_succeed(d);
    } else {
        assert forall|j: int| 0 <= j < i implies (#[trigger] piece(d[j])).is_ok() by {
            assert(d[j] == outcomes[j]);
        }
        assert(d[i] == outcomes[i]);
        first_failure_ends_render(d, i, e);
    }
}

/// A call that fails ends the render with an error, wherever it comes: a
/// render never succeeds past a failed call, with an empty text or another.
pub proof fn failed_call_fails_render(outcomes: Seq<CallOutcome>, o: CallOutcome)
    requires
        piece(o).is_err(),
    ensures
        render_outcome(outcomes.push(o)).is_err(),
{
    assert(outcomes.push(o).drop_last() =~= outcomes);
    assert(outcomes.push(o).last() == o);
}

/// The output of a successful render holds the text of each call verbatim.
pub proof fn output_holds_each_text(outcomes: Seq<CallOutcome>, i: int, text: Seq<char>)
    requires
        render_outcome(outcomes).is_ok(),
        0 <= i < outcomes.len(),
        piece(outcomes[i]) == Ok::<Seq<char>, SsrError>(text),
    ensures
        exists|k: int|
            0 <= k && k + text.len() <= render_outcome(outcomes)->Ok_0.len()
                && (#[trigger] render_outcome(outcomes)->Ok_0.subrange(k, k + text.len())) == text,
    decreases outcomes.len(),
{
    let d = outcomes.drop_last();
    let out = render_outcome(outcomes)->Ok_0;
    let done = render_outcome(d)->Ok_0;
    assert(out == done + piece(outcomes.last())->Ok_0);
    if i == outcomes.len() - 1 {
        let k = done.len() as int;
        assert(out.subrange(k, k + text.len()) =~= text);
    } else {
        assert(d[i] == outcomes[i]);
        output_holds_each_text(d, i, text);
        let k = choose|k: int|
            0 <= k && k + text.len() <= done.len() && (#[trigger] done.subrange(k, k + text.len()))
                == text;
        assert(out.subrange(k, k + text.len()) =~= done.subrange(k, k + text.len()));
    }
}

/// The key a render is cached under: its parameter string, or the empty
/// string when it has none.
pub open spec fn render_key(params: Option<Seq<char>>) -> Seq<char> {
    match params {
        Some(p) => p,
        None => Seq::<char>::empty(),
    }
}

/// The text a call adds to the output, or the error it ends the render with.
pub fn call_piece(o: CallOutcome) -> (r: Result<String, SsrError>)
    ensures
        match (r, piece(o)) {
            (Ok(s), Ok(p)) => s@ == p,
            (Err(e), Err(f)) => e == f,
            _ => false,
        },
{
    match o {
        CallOutcome::Threw => Err(SsrError::CallFailure),
        CallOutcome::Returned(Some(s)) => Ok(s),
        CallOutcome::Fulfilled(Some(s)) => Ok(s),
        CallOutcome::Returned(None) => Err(SsrError::StringCoercionFailure),
        CallOutcome::Fulfilled(None) => Err(SsrError::StringCoercionFailure),
        CallOutcome::Rejected => Err(SsrError::PromiseRejected),
        CallOutcome::FulfilledEmpty => Err(SsrError::PromiseRejected),
    }
}

/// The view of an optional string.
pub open spec fn opt_view(o: Option<&str>) -> Option<Seq<char>> {
    match o {
        Some(s) => Some(s@),
        None => None,
    }
}

/// A render under way: the calls made so far and what they added up to.
pub struct RenderJob {
    key: String,
    argument: Option<String>,
    output: String,
    position: usize,
    outcomes: Ghost<Seq<CallOutcome>>,
}

/// What a render under way stands for.
pub struct RenderJobView {
    /// The key its output will be cached under.
    pub key: Seq<char>,
    /// The single argument each function is called with (`None`: undefined).
    pub argument: Option<Seq<char>>,
    /// What the calls made so far came to, in order.
    pub outcomes: Seq<CallOutcome>,
    /// The concatenated text of those calls.
    pub output: Seq<char>,
}

impl View for RenderJob {
    type V = RenderJobView;

    closed spec fn view(&self) -> RenderJobView {
        RenderJobView {
            key: self.key@,
            argument: match self.argument {
                Some(a) => Some(a@),
                None => None,
            },
            outcomes: self.outcomes@,
            output: self.output@,
        }
    }
}

impl RenderJob {
    /// Every call so far succeeded, and the output is their texts in order.
    pub closed spec fn wf(&self) -> bool {
        &&& self.position == self.outcomes@.len()
        &&& render_outcome(self.outcomes@) == Ok::<Seq<char>, SsrError>(self.output@)
    }

    /// A render with `params`, before any call.
    pub fn new(params: Option<&str>) -> (r: RenderJob)
        ensures
            r.wf(),
            r@.key == render_key(opt_view(params)),
            r@.argument == opt_view(params),
            r@.outcomes == Seq::<CallOutcome>::empty(),
    {
        let (key, argument) = match params {
            Some(p) => (p.to_owned(), Some(p.to_owned())),
            None => (String::new(), None),
        };
        RenderJob {
            key,
            argument,
            output: String::new(),
            position: 0,
            outcomes: Ghost(Seq::empty()),
        }
    }

    /// The argument each function is called with: the parameter string, or
    /// undefined where it is `None`.
    pub fn argument(&self) -> (r: Option<&str>)
        ensures
            opt_view(r) == self@.argument,
    {
        match &self.argument {
            Some(a) => Some(a.as_str()),
            None => None,
        }
    }

    /// The key the output will be cached under.
    pub fn key(&self) -> (r: &str)
        ensures
            r@ == self@.key,
    {
        self.key.as_str()
    }

    /// How many calls were recorded.
    pub fn position(&self) -> (n: usize)
        requires
            self.wf(),
        ensures
            n == self@.outcomes.len(),
    {
        self.position
    }

    /// Records what the next call came to, adding its text to the output; an
    /// error ends the render.
    pub fn record(&mut self, outcome: CallOutcome) -> (r: Result<(), SsrError>)
        requires
            old(self).wf(),
            old(self)@.outcomes.len() < usize::MAX,
        ensures
            final(self)@.key == old(self)@.key,
            final(self)@.argument == old(self)@.argument,
            final(self)@.outcomes == old(self)@.outcomes.push(outcome),
            r.is_ok() == render_outcome(final(self)@.outcomes).is_ok(),
            r.is_ok() ==> final(self).wf(),
            match render_outcome(final(self)@.outcomes) {
                Ok(_) => r == Ok::<(), SsrError>(()),
                Err(e) => r == Err::<(), SsrError>(e),
            },
    {
        let ghost before = self.outcomes@;
        self.outcomes = Ghost(self.outcomes@.push(outcome));
        assert(self.outcomes@.drop_last() =~= before);
        self.position = self.position + 1;
        match call_piece(outcome) {
            Ok(s) => {
                self.output.append(s.as_str());
                Ok(())
            },
            Err(e) => Err(e),
        }
    }

    /// The key and the output of a render all of whose calls succeeded.
    pub fn into_parts(self) -> (r: (String, String))
        requires
            self.wf(),
        ensures
            r.0@ == self@.key,
            r.1@ == self@.output,
            render_outcome(self@.outcomes) == Ok::<Seq<char>, SsrError>(r.1@),
    {
        (self.key, self.output)
    }
}

} // verus!
