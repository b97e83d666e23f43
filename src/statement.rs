use vstd::prelude::*;
use crate::error::DbError;
use crate::param::{BindValue, Param, bind_of};
use crate::result_set::ResultSet;

verus! {

/// Whether a character has the Unicode `White_Space` property, which is what
/// `char::is_whitespace` and `str::trim_start` test.
pub open spec fn is_white_space(c: char) -> bool {
    let n = c as u32;
    (0x9 <= n && n <= 0xd) || n == 0x20 || n == 0x85 || n == 0xa0 || n == 0x1680 || (0x2000 <= n
        && n <= 0x200a) || n == 0x2028 || n == 0x2029 || n == 0x202f || n == 0x205f || n == 0x3000
}

/// The text without its leading run of whitespace.
pub open spec fn trim_start_of(s: Seq<char>) -> Seq<char>
    decreases s.len(),
{
    if s.len() > 0 && is_white_space(s[0]) {
        trim_start_of(s.drop_first())
    } else {
        s
    }
}

/// The upper-case mapping of the text, as `str::to_uppercase` gives it.
pub uninterp spec fn upper_of(s: Seq<char>) -> Seq<char>;

/// Relies on `str::trim_start`: the text with its leading run of `White_Space`
/// characters removed.
#[verifier::external_body]
fn trim_leading<'a>(s: &'a str) -> (r: &'a str)
    ensures
        r@ == trim_start_of(s@),
{
    s.trim_start()
}

/// Relies on `str::to_uppercase`: the upper-case mapping of the text, which
/// depends on the characters alone.
#[verifier::external_body]
fn uppercase(s: &str) -> (r: String)
    ensures
        r@ == upper_of(s@),
{
    s.to_uppercase()
}

/// The keyword that marks a statement as a query.
pub open spec fn select_keyword() -> Seq<char> {
    seq!['S', 'E', 'L', 'E', 'C', 'T']
}

/// Whether an already trimmed and upper-cased text begins with `SELECT`.
pub open spec fn has_select_prefix(s: Seq<char>) -> bool {
    s.len() >= 6 && s.subrange(0, 6) == select_keyword()
}

/// Whether SQL text is run as a query: once leading whitespace is trimmed and
/// the text is upper-cased, it begins with `SELECT`.
pub open spec fn is_query_text(sql: Seq<char>) -> bool {
    has_select_prefix(upper_of(trim_start_of(sql)))
}

/// Whether a trimmed, upper-cased text begins with `SELECT`.
pub fn starts_with_select(folded: &str) -> (r: bool)
    ensures
        r == has_select_prefix(folded@),
{
    let n = folded.unicode_len();
    if n < 6 {
        return false;
    }
    let keyword = ['S', 'E', 'L', 'E', 'C', 'T'];
    let mut i: usize = 0;
    while i < 6
        invariant
            6 <= n,
            n == folded@.len(),
            i <= 6,
            keyword@ == select_keyword(),
            forall|j: int| 0 <= j < i ==> folded@[j] == select_keyword()[j],
        decreases 6 - i,
    {
        if folded.get_char(i) != keyword[i] {
            assert(folded@.subrange(0, 6)[i as int] != select_keyword()[i as int]);
            return false;
        }
        i = i + 1;
    }
    assert(folded@.subrange(0, 6) =~= select_keyword());
    true
}

/// Whether SQL text is run as a query rather than as an update. This looks at
/// the leading keyword only: a statement that returns rows by other means (a
/// `WITH` prefix, a `RETURNING` clause) is still classified as an update.
pub fn is_select_query(sql: &str) -> (r: bool)
    ensures
        r == is_query_text(sql@),
{
    let trimmed = trim_leading(sql);
    let folded = uppercase(trimmed);
    starts_with_select(folded.as_str())
}

/// How the engine is asked to run a statement.
#[derive(Clone, Copy, Debug, PartialEq, Eq, Structural)]
pub enum ExecKind {
    /// Fetch every row of the result.
    Query,
    /// Run it and report the number of affected rows.
    Update,
}

/// The classification of SQL text.
pub open spec fn kind_of(sql: Seq<char>) -> ExecKind {
    if is_query_text(sql) {
        ExecKind::Query
    } else {
        ExecKind::Update
    }
}

/// SQL text with the ordered values bound to its `?` placeholders.
pub struct Statement {
    sql: String,
    params: Vec<Param>,
}

impl Statement {
    /// The SQL text of the statement.
    pub closed spec fn sql_spec(&self) -> Seq<char> {
        self.sql@
    }

    /// The bound values, in binding order.
    pub closed spec fn params_spec(&self) -> Seq<Param> {
        self.params@
    }

    /// A statement over the given text, with no bound values.
    pub fn new(sql: &str) -> (r: Statement)
        ensures
            r.sql_spec() == sql@,
            r.params_spec() == Seq::<Param>::empty(),
    {
        Statement { sql: sql.to_string(), params: Vec::new() }
    }

    /// Appends one value to bind; the order of calls is the binding order.
    pub fn set_param<T>(self, param: T) -> (r: Statement) where Param: From<T>
        ensures
            r.sql_spec() == self.sql_spec(),
            r.params_spec().len() == self.params_spec().len() + 1,
            r.params_spec().subrange(0, self.params_spec().len() as int) == self.params_spec(),
            <Param as vstd::std_specs::convert::FromSpec<T>>::obeys_from_spec() ==> r.params_spec()
                == self.params_spec().push(
                <Param as vstd::std_specs::convert::FromSpec<T>>::from_spec(param),
            ),
    {
        let mut s = self;
        let p = Param::from(param);
        s.params.push(p);
        assert(s.params@.subrange(0, self.params@.len() as int) =~= self.params@);
        s
    }

    /// The SQL text of the statement.
    pub fn sql(&self) -> (r: &str)
        ensures
            r@ == self.sql_spec(),
    {
        self.sql.as_str()
    }

    /// The number of bound values.
    pub fn param_count(&self) -> (r: usize)
        ensures
            r == self.params_spec().len(),
    {
        self.params.len()
    }

    /// How the engine is to run this statement.
    pub fn kind(&self) -> (r: ExecKind)
        ensures
            r == kind_of(self.sql_spec()),
    {
        if is_select_query(self.sql.as_str()) {
            ExecKind::Query
        } else {
            ExecKind::Update
        }
    }

    /// The values to hand to the engine, one per bound value and in the same order.
    pub fn bind_values(&self) -> (r: Vec<BindValue>)
        ensures
            r@.len() == self.params_spec().len(),
            forall|i: int| 0 <= i < r@.len() ==> bind_of(#[trigger] self.params_spec()[i], r@[i]),
    {
        let mut out: Vec<BindValue> = Vec::new();
        let mut i: usize = 0;
        while i < self.params.len()
            invariant
                i <= self.params@.len(),
                out@.len() == i,
                forall|j: int| 0 <= j < i ==> bind_of(#[trigger] self.params@[j], out@[j]),
            decreases self.params@.len() - i,
        {
            out.push(self.params[i].to_bind());
            i = i + 1;
        }
        out
    }
}

/// What the engine returned for a statement.
pub enum StatementResult {
    /// The number of rows an update affected.
    Update(u64),
    /// The rows a query produced.
    Query(ResultSet),
}

/// Whether a result has the shape the engine gives for a kind of run.
pub open spec fn fits(kind: ExecKind, r: StatementResult) -> bool {
    match r {
        StatementResult::Update(_) => kind == ExecKind::Update,
        StatementResult::Query(_) => kind == ExecKind::Query,
    }
}

/// The outcome of the update path on a result.
pub open spec fn update_outcome(r: StatementResult) -> Result<u64, DbError> {
    match r {
        StatementResult::Update(n) => Ok(n),
        StatementResult::Query(_) => Err(DbError::WrongResultShape),
    }
}

/// The outcome of the query path on a result.
pub open spec fn query_outcome(r: StatementResult) -> Result<ResultSet, DbError> {
    match r {
        StatementResult::Query(rs) => Ok(rs),
        StatementResult::Update(_) => Err(DbError::WrongResultShape),
    }
}

impl StatementResult {
    /// The affected-row count, or `WrongResultShape` when the engine produced rows.
    pub fn into_update(self) -> (r: Result<u64, DbError>)
        ensures
            r == update_outcome(self),
    {
        match self {
            StatementResult::Update(n) => Ok(n),
            StatementResult::Query(_) => Err(DbError::WrongResultShape),
        }
    }

    /// The result set, or `WrongResultShape` when the engine produced a count.
    pub fn into_query(self) -> (r: Result<ResultSet, DbError>)
        ensures
            r == query_outcome(self),
    {
        match self {
            StatementResult::Query(rs) => Ok(rs),
            StatementResult::Update(_) => Err(DbError::WrongResultShape),
        }
    }
}

/// Binding order is call order: when each statement of a chain is the one
/// before it with one more value appended, starting from a statement with
/// nothing bound, the last statement binds exactly the appended values, as
/// many as there were appends and in the order they were made.
pub proof fn lemma_appends_bind_in_call_order(chain: Seq<Statement>, appended: Seq<Param>)
    requires
        chain.len() == appended.len() + 1,
        chain[0].params_spec() == Seq::<Param>::empty(),
        forall|k: int| 0 <= k < appended.len() ==> #[trigger] chain[k + 1].params_spec()
            == chain[k].params_spec().push(appended[k]),
    ensures
        chain.last().params_spec() == appended,
        chain.last().params_spec().len() == appended.len(),
    decreases appended.len(),
{
    if appended.len() == 0 {
        assert(chain.last().params_spec() =~= appended);
    } else {
        let n = appended.len() - 1;
        let shorter = chain.drop_last();
        let first = appended.drop_last();
        assert forall|k: int| 0 <= k < first.len() implies #[trigger] shorter[k + 1].params_spec()
            == shorter[k].params_spec().push(first[k]) by {
            assert(chain[k + 1].params_spec() == chain[k].params_spec().push(appended[k]));
        }
        lemma_appends_bind_in_call_order(shorter, first);
        assert(chain[n + 1].params_spec() == chain[n].params_spec().push(appended[n]));
        assert(chain.last().params_spec() =~= appended);
    }
}

/// Leading whitespace never changes how SQL text is classified.
pub proof fn lemma_leading_whitespace_ignored(ws: Seq<char>, t: Seq<char>)
    requires
        forall|i: int| 0 <= i < ws.len() ==> is_white_space(#[trigger] ws[i]),
    ensures
        is_query_text(ws + t) == is_query_text(t),
        trim_start_of(ws + t) == trim_start_of(t),
    decreases ws.len(),
{
    if ws.len() == 0 {
        assert(ws + t =~= t);
    } else {
        let rest = ws.drop_first();
        assert forall|i: int| 0 <= i < rest.len() implies is_white_space(#[trigger] rest[i]) by {
            assert(rest[i] == ws[i + 1]);
        }
        lemma_leading_whitespace_ignored(rest, t);
        assert((ws + t)[0] == ws[0]);
        assert((ws + t).drop_first() =~= rest + t);
    }
}

/// The update path fails with `WrongResultShape` on a statement classified as
/// a query, and the query path fails the same way on any other statement,
/// whenever the engine's result has the shape of the statement's kind.
pub proof fn lemma_wrong_path_fails(s: Statement, r: StatementResult)
    requires
        fits(kind_of(s.sql_spec()), r),
    ensures
        is_query_text(s.sql_spec()) ==> update_outcome(r) == Err::<u64, DbError>(
            DbError::WrongResultShape,
        ),
        !is_query_text(s.sql_spec()) ==> query_outcome(r) == Err::<ResultSet, DbError>(
            DbError::WrongResultShape,
        ),
        is_query_text(s.sql_spec()) ==> query_outcome(r) is Ok,
        !is_query_text(s.sql_spec()) ==> update_outcome(r) is Ok,
{
}

} // verus!
