use vstd::prelude::*;

verus! {

/// How a query result is turned into text.
#[derive(Clone, Copy, Debug, PartialEq, Eq, Structural)]
pub enum RenderMode {
    /// The engine's own compact textual form.
    Native,
    /// The engine's own indented textual form.
    NativePretty,
    /// Compact structured (JSON) text.
    Structured,
    /// Structured (JSON) text indented with tabs.
    StructuredPretty,
}

/// The rendering chosen by the two session preferences.
pub open spec fn mode_of(pretty: bool, json: bool) -> RenderMode {
    if json {
        if pretty {
            RenderMode::StructuredPretty
        } else {
            RenderMode::Structured
        }
    } else {
        if pretty {
            RenderMode::NativePretty
        } else {
            RenderMode::Native
        }
    }
}

/// The rendering for the preferences `pretty` and `json`.
pub fn render_mode(pretty: bool, json: bool) -> (m: RenderMode)
    ensures
        m == mode_of(pretty, json),
{
    match (json, pretty) {
        (false, false) => RenderMode::Native,
        (false, true) => RenderMode::NativePretty,
        (true, false) => RenderMode::Structured,
        (true, true) => RenderMode::StructuredPretty,
    }
}

/// One element of the collection rendered for a multi-statement query.
#[derive(Debug)]
pub enum Item<V> {
    /// The value a statement returned.
    Value(V),
    /// The text of the error a statement failed with, as a string value.
    Text(String),
}

/// The single value that a query's statements are rendered as.
#[derive(Debug)]
pub enum Assembled<V> {
    /// The query held no statement: the engine's empty value.
    Nothing,
    /// The one statement's value.
    Bare(V),
    /// One element per statement, in statement order.
    Collection(Vec<Item<V>>),
}

/// The element that stands for one statement's outcome.
pub open spec fn item_of<V>(s: Result<V, String>) -> Item<V> {
    match s {
        Ok(v) => Item::Value(v),
        Err(e) => Item::Text(e),
    }
}

/// `r` is what the per-statement outcomes `s` assemble to: no statement
/// gives the empty value; one statement gives its value, or its error as the
/// error of the whole; more give a collection whose k-th element is the k-th
/// statement's value or error text.
pub open spec fn assembles<V>(s: Seq<Result<V, String>>, r: Result<Assembled<V>, String>) -> bool {
    if s.len() == 0 {
        r matches Ok(Assembled::Nothing)
    } else if s.len() == 1 {
        match s[0] {
            Ok(v) => r == Ok::<Assembled<V>, String>(Assembled::Bare(v)),
            Err(e) => r == Err::<Assembled<V>, String>(e),
        }
    } else {
        match r {
            Ok(Assembled::Collection(items)) => items@ == s.map_values(|o: Result<V, String>| item_of(o)),
            _ => false,
        }
    }
}

/// In a query of two or more statements, the assembled collection has one
/// element per statement, in statement order: a failed statement's element is
/// its error text as a string value, any other's is the statement's value.
pub proof fn collection_keeps_outcomes<V>(
    s: Seq<Result<V, String>>,
    r: Result<Assembled<V>, String>,
    k: int,
)
    requires
        assembles(s, r),
        s.len() > 1,
        0 <= k < s.len(),
    ensures
        r matches Ok(Assembled::Collection(items)) && items@.len() == s.len() && match s[k] {
            Ok(v) => items@[k] == Item::<V>::Value(v),
            Err(e) => items@[k] == Item::<V>::Text(e),
        },
{
}

/// A query of one successful statement is rendered as that statement's bare
/// value: no collection wraps it.
pub proof fn single_statement_is_bare<V>(v: V, r: Result<Assembled<V>, String>)
    requires
        assembles(seq![Ok::<V, String>(v)], r),
    ensures
        r == Ok::<Assembled<V>, String>(Assembled::Bare(v)),
{
}

/// Assembles the outcomes of a query's statements into the value to render.
pub fn assemble<V>(statements: Vec<Result<V, String>>) -> (r: Result<Assembled<V>, String>)
    ensures
        assembles(statements@, r),
{
    let n = statements.len();
    if n == 0 {
        return Ok(Assembled::Nothing);
    }
    let ghost s = statements@;
    let mut items: Vec<Item<V>> = Vec::new();
    for st in it: statements
        invariant
            it.seq() == s,
            s.len() == n,
            items@ == s.take(it.index() as int).map_values(|o: Result<V, String>| item_of(o)),
    {
        let item = match st {
            Ok(v) => Item::Value(v),
            Err(e) => Item::Text(e),
        };
        proof {
            assert(s.take(it.index() + 1) == s.take(it.index() as int).push(s[it.index() as int]));
        }
        items.push(item);
    }
    proof {
        assert(s.take(n as int) == s);
    }
    if n == 1 {
        match items.pop() {
            Some(Item::Value(v)) => Ok(Assembled::Bare(v)),
            Some(Item::Text(e)) => Err(e),
            None => Ok(Assembled::Nothing),
        }
    } else {
        Ok(Assembled::Collection(items))
    }
}

/// What to render, and how.
#[derive(Debug)]
pub struct Rendering<V> {
    pub mode: RenderMode,
    pub value: Assembled<V>,
}

/// Turns a query's result into what is to be rendered: an error of the
/// whole query is handed back at once; otherwise the statements' outcomes are
/// assembled and the rendering is chosen by `pretty` and `json`.
pub fn process<V>(pretty: bool, json: bool, res: Result<Vec<Result<V, String>>, String>) -> (r:
    Result<Rendering<V>, String>)
    ensures
        match res {
            Err(e) => r == Err::<Rendering<V>, String>(e),
            Ok(s) => match r {
                Ok(rd) => rd.mode == mode_of(pretty, json) && assembles(
                    s@,
                    Ok::<Assembled<V>, String>(rd.value),
                ),
                Err(e) => assembles(s@, Err::<Assembled<V>, String>(e)),
            },
        },
{
    let statements = match res {
        Ok(s) => s,
        Err(e) => return Err(e),
    };
    let value = match assemble(statements) {
        Ok(v) => v,
        Err(e) => return Err(e),
    };
    Ok(Rendering { mode: render_mode(pretty, json), value })
}

} // verus!
