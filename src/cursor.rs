//! A forward-only result cursor. The row stream itself is driven by the
//! caller: each pull from it is handed to the cursor as a `Pull`, and the
//! cursor decides its next state.
use vstd::prelude::*;
use crate::model::Error;

verus! {

/// What one pull from a row stream gave.
pub enum Pull<R> {
    /// The next row.
    Row(R),
    /// The stream is drained.
    End,
    /// The stream failed.
    Failed(Error),
}

/// The state of a cursor as a value.
pub struct CursorModel<R> {
    /// The row visible to getters.
    pub current: Option<R>,
    /// The stream is drained or failed: nothing more is pulled.
    pub exhausted: bool,
    /// Every row pulled so far, in stream order.
    pub pulled: Seq<R>,
    /// The failure that ended the stream, if one did.
    pub error: Option<Error>,
}

/// A cursor before its first advance.
pub open spec fn start<R>() -> CursorModel<R> {
    CursorModel { current: None, exhausted: false, pulled: seq![], error: None }
}

/// One advance: a row becomes the current one; the end or a failure of the
/// stream exhausts the cursor and clears its row. An exhausted cursor stays
/// as it is.
pub open spec fn step<R>(m: CursorModel<R>, p: Pull<R>) -> CursorModel<R> {
    if m.exhausted {
        m
    } else {
        match p {
            Pull::Row(r) => CursorModel { current: Some(r), exhausted: false, pulled: m.pulled.push(r), error: None },
            Pull::End => CursorModel { current: None, exhausted: true, pulled: m.pulled, error: None },
            Pull::Failed(e) => CursorModel { current: None, exhausted: true, pulled: m.pulled, error: Some(e) },
        }
    }
}

/// The cursor after a sequence of advances from the start.
pub open spec fn run<R>(pulls: Seq<Pull<R>>) -> CursorModel<R>
    decreases pulls.len(),
{
    if pulls.len() == 0 {
        start()
    } else {
        step(run(pulls.drop_last()), pulls.last())
    }
}

/// The error a getter gives when no row is current.
pub open spec fn is_no_row_error(e: Error) -> bool {
    e.message() == "no current row"@
}

/// No row is visible before the first row arrives, nor once the stream is
/// drained or failed; an exhausted cursor stays exhausted whatever follows.
pub proof fn lemma_no_row_outside_stream<R>(pulls: Seq<Pull<R>>, p: Pull<R>)
    ensures
        run::<R>(seq![]).current is None,
        (forall|i: int| 0 <= i < pulls.len() ==> !(#[trigger] pulls[i] is Row)) ==> run(pulls).current is None,
        !(p is Row) ==> run(pulls.push(p)).current is None && run(pulls.push(p)).exhausted,
        run(pulls).exhausted ==> run(pulls.push(p)) == run(pulls) && run(pulls).current is None,
    decreases pulls.len(),
{
    assert(pulls.push(p).drop_last() =~= pulls);
    lemma_cursor_consistent(pulls);
    if pulls.len() > 0 && forall|i: int| 0 <= i < pulls.len() ==> !(#[trigger] pulls[i] is Row) {
        let init = pulls.drop_last();
        assert forall|i: int| 0 <= i < init.len() implies !(#[trigger] init[i] is Row) by {
            assert(init[i] == pulls[i]);
        }
        lemma_no_row_outside_stream(init, p);
        assert(!(pulls[pulls.len() - 1] is Row));
    }
}

/// The row visible after an advance is the last row pulled, and an exhausted
/// cursor holds none.
pub proof fn lemma_cursor_consistent<R>(pulls: Seq<Pull<R>>)
    ensures
        run(pulls).current matches Some(r) ==> run(pulls).pulled.len() > 0 && r == run(pulls).pulled.last(),
        run(pulls).exhausted ==> run(pulls).current is None,
    decreases pulls.len(),
{
    if pulls.len() > 0 {
        lemma_cursor_consistent(pulls.drop_last());
    }
}

/// After `N` successful advances the visible row is the `N`th row of the
/// stream; rows once pulled are never rewritten nor seen again.
pub proof fn lemma_forward_only<R>(pulls: Seq<Pull<R>>, p: Pull<R>)
    ensures
        (forall|i: int| 0 <= i < pulls.len() ==> #[trigger] pulls[i] is Row) ==> {
            &&& run(pulls).pulled.len() == pulls.len()
            &&& forall|i: int| 0 <= i < pulls.len() ==> #[trigger] run(pulls).pulled[i] == pulls[i]->Row_0
            &&& pulls.len() > 0 ==> run(pulls).current == Some(pulls.last()->Row_0)
        },
        run(pulls.push(p)).pulled.len() >= run(pulls).pulled.len(),
        run(pulls.push(p)).pulled.take(run(pulls).pulled.len() as int) == run(pulls).pulled,
        run(pulls.push(p)).current matches Some(r) ==> run(pulls).current is None || run(pulls).pulled.len()
            < run(pulls.push(p)).pulled.len(),
    decreases pulls.len(),
{
    let before = run(pulls).pulled;
    assert(pulls.push(p).drop_last() =~= pulls);
    assert(run(pulls.push(p)).pulled.take(before.len() as int) =~= before);
    if pulls.len() > 0 && forall|i: int| 0 <= i < pulls.len() ==> #[trigger] pulls[i] is Row {
        let init = pulls.drop_last();
        assert forall|i: int| 0 <= i < init.len() implies #[trigger] init[i] is Row by {
            assert(init[i] == pulls[i]);
        }
        lemma_forward_only(init, pulls.last());
        assert(pulls[pulls.len() - 1] is Row);
        lemma_cursor_consistent(init);
        assert(forall|i: int| 0 <= i < init.len() ==> #[trigger] run(init).pulled[i] == init[i]->Row_0);
        assert(!run(init).exhausted);
        assert forall|i: int| 0 <= i < pulls.len() implies #[trigger] run(pulls).pulled[i] == pulls[i]->Row_0 by {
            if i < init.len() {
                assert(run(pulls).pulled[i] == run(init).pulled[i]);
            }
        }
    }
    lemma_cursor_consistent(pulls);
}

/// A forward-only cursor over rows of type `R`.
pub struct ResultCursor<R> {
    current: Option<R>,
    exhausted: bool,
    error: Option<Error>,
    pulled: Ghost<Seq<R>>,
}

pub fn no_row_error() -> (e: Error)
    ensures
        is_no_row_error(e),
{
    Error::General(String::from_str("no current row"))
}

impl<R> ResultCursor<R> {
    /// The cursor's state.
    pub closed spec fn model(&self) -> CursorModel<R> {
        CursorModel { current: self.current, exhausted: self.exhausted, pulled: self.pulled@, error: self.error }
    }

    pub fn new() -> (r: Self)
        ensures
            r.model() == start::<R>(),
    {
        ResultCursor { current: None, exhausted: false, error: None, pulled: Ghost(Seq::empty()) }
    }

    /// Whether the next advance needs a pull from the stream.
    pub fn needs_pull(&self) -> (r: bool)
        ensures
            r == !self.model().exhausted,
    {
        !self.exhausted
    }

    /// Takes the outcome of one pull; true when a row is now current.
    pub fn advance(&mut self, p: Pull<R>) -> (r: bool)
        ensures
            final(self).model() == step(old(self).model(), p),
            r == final(self).model().current is Some,
    {
        if self.exhausted {
            return self.current.is_some();
        }
        match p {
            Pull::Row(row) => {
                let ghost pulled = self.pulled@.push(row);
                self.current = Some(row);
                self.pulled = Ghost(pulled);
                self.error = None;
                true
            },
            Pull::End => {
                self.current = None;
                self.exhausted = true;
                self.error = None;
                false
            },
            Pull::Failed(e) => {
                self.current = None;
                self.exhausted = true;
                self.error = Some(e);
                false
            },
        }
    }

    /// Whether a row is current.
    pub fn is_positioned(&self) -> (r: bool)
        ensures
            r == self.model().current is Some,
    {
        self.current.is_some()
    }

    /// The current row; before the first row and once exhausted, the
    /// "no current row" error.
    pub fn current_row(&self) -> (r: Result<&R, Error>)
        ensures
            self.model().current matches Some(row) ==> r is Ok && *r->Ok_0 == row,
            self.model().current is None ==> r is Err && is_no_row_error(r->Err_0),
    {
        match &self.current {
            Some(row) => Ok(row),
            None => Err(no_row_error()),
        }
    }

    /// The failure that ended the stream, if one did.
    pub fn error(&self) -> (r: Option<&Error>)
        ensures
            r is Some <==> self.model().error is Some,
            r is Some ==> *r->Some_0 == self.model().error->Some_0,
    {
        match &self.error {
            Some(e) => Some(e),
            None => None,
        }
    }
}

} // verus!
