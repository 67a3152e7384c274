//! Query parameters of list endpoints: pages, orderings, and the filter
//! trees that clients send, with their translation into SQL conditions.

use vstd::prelude::*;

verus! {

/// The page parameters of a query string.
#[derive(Debug)]
pub struct PaginatedQueryParams {
    /// The page, counted from 1.
    pub page: u64,
    /// The number of records on a page.
    pub page_size: u64,
}

/// A direction of ordering.
#[derive(Debug, Clone, Copy, PartialEq, Eq, Structural)]
pub enum Order {
    /// Ascending.
    Asc,
    /// Descending.
    Desc,
}

/// One key of an ordering as the client sends it.
#[derive(Debug)]
pub struct OrderDto<T> {
    /// The field to order by.
    pub field: T,
    /// The direction.
    pub order: Order,
}

/// A page query as the client sends it: page parameters, an optional filter
/// and an optional ordering.
#[derive(Debug)]
pub struct PageableQueryDto<T, U> {
    /// The page, counted from 1.
    pub page: u64,
    /// The number of records on a page.
    pub page_size: u64,
    /// The filter, if any.
    pub filter: Option<T>,
    /// The ordering keys, if any.
    pub orders: Option<Vec<OrderDto<U>>>,
}

/// A page query as the services take it.
#[derive(Debug)]
pub struct PageableQuery<P, Q> {
    /// The page, counted from 1.
    pub page: u64,
    /// The number of records on a page.
    pub page_size: u64,
    /// The ordering keys as (field, direction), if any.
    pub orders: Option<Vec<(Q, Order)>>,
    /// The filter condition, if any.
    pub condition: Option<P>,
}

/// Whether `res` holds the ordering keys converted with `From`: the same
/// number of keys, each field converted and each direction kept, in order.
pub open spec fn orders_converted<U, Q: From<U>>(orders: Seq<OrderDto<U>>, res: Seq<(Q, Order)>) -> bool {
    &&& res.len() == orders.len()
    &&& forall|i: int|
        0 <= i < orders.len() ==> call_ensures(Q::from, (orders[i].field,), #[trigger] res[i].0)
            && res[i].1 == orders[i].order
}

fn convert_orders<U, Q: From<U>>(orders: Vec<OrderDto<U>>) -> (res: Vec<(Q, Order)>)
    ensures
        orders_converted(orders@, res@),
{
    let mut res: Vec<(Q, Order)> = Vec::new();
    let ghost all = orders@;
    for o in it: orders
        invariant
            all == it.seq(),
            res@.len() == it.index(),
            forall|i: int|
                0 <= i < it.index() ==> call_ensures(Q::from, (all[i].field,), #[trigger] res@[i].0)
                    && res@[i].1 == all[i].order,
    {
        let ghost n: int = it.index() as int;
        assert(o == all[n]);
        let OrderDto { field, order } = o;
        let q = Q::from(field);
        let ghost prev = res@;
        res.push((q, order));
        assert forall|i: int| 0 <= i < n + 1 implies call_ensures(
            Q::from,
            (all[i].field,),
            #[trigger] res@[i].0,
        ) && res@[i].1 == all[i].order by {
            if i < n {
                assert(res@[i] == prev[i]);
                assert(call_ensures(Q::from, (all[i].field,), prev[i].0));
            } else {
                assert(res@[i] == (q, order));
            }
        }
    }
    res
}

impl<T, U> PageableQueryDto<T, U> {
    /// The query for the services: the same page, the filter converted into
    /// the condition and the ordering keys into (field, direction) pairs,
    /// each with `From`.
    pub fn into_query<P: From<T>, Q: From<U>>(self) -> (res: PageableQuery<P, Q>)
        ensures
            res.page == self.page,
            res.page_size == self.page_size,
            match self.filter {
                Some(f) => res.condition matches Some(c) && call_ensures(P::from, (f,), c),
                None => res.condition is None,
            },
            match self.orders {
                Some(o) => res.orders matches Some(r) && orders_converted(o@, r@),
                None => res.orders is None,
            },
    {
        let orders = match self.orders {
            Some(o) => Some(convert_orders(o)),
            None => None,
        };
        let condition = match self.filter {
            Some(f) => Some(P::from(f)),
            None => None,
        };
        PageableQuery { page: self.page, page_size: self.page_size, orders, condition }
    }
}

/// The condition of one filter atom as the client sends it.
#[derive(Debug)]
pub enum FilterCondition<V> {
    /// The field equals the value.
    Equals(V),
    /// The field is greater than the value.
    Gt(V),
    /// The field is at least the value.
    Ge(V),
    /// The field is less than the value.
    Lt(V),
    /// The field is at most the value.
    Le(V),
    /// The field is one of the values.
    In(Vec<V>),
    /// The field is none of the values.
    NotIn(Vec<V>),
    /// The field matches the SQL pattern.
    Like(String),
    /// The field does not match the SQL pattern.
    NotLike(String),
    /// The field lies between the first two values.
    Between(Vec<V>),
    /// The field is null.
    IsNull,
    /// The field is not null.
    IsNotNull,
}

/// A condition on one field.
#[derive(Debug)]
pub struct AtomFilter<V> {
    /// The field's name.
    pub field: String,
    /// The condition.
    pub condition: FilterCondition<V>,
}

/// A filter tree as the client sends it.
#[derive(Debug)]
pub enum Filter<V> {
    /// A condition on one field.
    Atom(AtomFilter<V>),
    /// All of the filters hold.
    And(Vec<Filter<V>>),
    /// At least one of the filters holds.
    Or(Vec<Filter<V>>),
}

/// A predicate of the SQL builder on one column.
#[derive(Debug)]
pub enum ColumnPredicate<V> {
    /// `column = value`
    Eq(V),
    /// `column > value`
    Gt(V),
    /// `column >= value`
    Gte(V),
    /// `column < value`
    Lt(V),
    /// `column <= value`
    Lte(V),
    /// `column IN (values)`
    IsIn(Vec<V>),
    /// `column NOT IN (values)`
    IsNotIn(Vec<V>),
    /// `column LIKE pattern`
    Like(String),
    /// `column NOT LIKE pattern`
    NotLike(String),
    /// `column BETWEEN low AND high`
    Between(V, V),
    /// `column IS NULL`
    IsNull,
    /// `column IS NOT NULL`
    IsNotNull,
}

/// A condition of the SQL builder.
#[derive(Debug)]
pub enum Condition<V> {
    /// A predicate on the column of the given name.
    Column(String, ColumnPredicate<V>),
    /// The conjunction of the conditions (true when there are none).
    All(Vec<Condition<V>>),
    /// The disjunction of the conditions (false when there are none).
    Any(Vec<Condition<V>>),
}

/// A filter that can be translated: every `Between` has at least two values.
pub open spec fn filter_well_formed<V>(f: Filter<V>) -> bool
    decreases f,
{
    match f {
        Filter::Atom(a) => a.condition matches FilterCondition::Between(vs) ==> vs@.len() >= 2,
        Filter::And(fs) => forall|i: int| 0 <= i < fs@.len() ==> filter_well_formed(#[trigger] fs@[i]),
        Filter::Or(fs) => forall|i: int| 0 <= i < fs@.len() ==> filter_well_formed(#[trigger] fs@[i]),
    }
}

/// The column predicate of an atom's condition; `Between` takes its first
/// two values.
pub open spec fn atom_predicate<V>(c: FilterCondition<V>) -> ColumnPredicate<V> {
    match c {
        FilterCondition::Equals(v) => ColumnPredicate::Eq(v),
        FilterCondition::Gt(v) => ColumnPredicate::Gt(v),
        FilterCondition::Ge(v) => ColumnPredicate::Gte(v),
        FilterCondition::Lt(v) => ColumnPredicate::Lt(v),
        FilterCondition::Le(v) => ColumnPredicate::Lte(v),
        FilterCondition::In(vs) => ColumnPredicate::IsIn(vs),
        FilterCondition::NotIn(vs) => ColumnPredicate::IsNotIn(vs),
        FilterCondition::Like(p) => ColumnPredicate::Like(p),
        FilterCondition::NotLike(p) => ColumnPredicate::NotLike(p),
        FilterCondition::Between(vs) => ColumnPredicate::Between(vs@[0], vs@[1]),
        FilterCondition::IsNull => ColumnPredicate::IsNull,
        FilterCondition::IsNotNull => ColumnPredicate::IsNotNull,
    }
}

/// Whether the condition is the translation of the filter: atoms become
/// column predicates, `And` becomes `All` and `Or` becomes `Any` of the
/// translations of the parts, in order.
pub open spec fn translates<V>(f: Filter<V>, c: Condition<V>) -> bool
    decreases f,
{
    match f {
        Filter::Atom(a) => c == Condition::Column(a.field, atom_predicate(a.condition)),
        Filter::And(fs) => c matches Condition::All(cs) && cs@.len() == fs@.len() && forall|i: int|
            0 <= i < fs@.len() ==> translates(#[trigger] fs@[i], cs@[i]),
        Filter::Or(fs) => c matches Condition::Any(cs) && cs@.len() == fs@.len() && forall|i: int|
            0 <= i < fs@.len() ==> translates(#[trigger] fs@[i], cs@[i]),
    }
}

/// The first two values of a `Between`.
fn first_two<V>(values: Vec<V>) -> (res: (V, V))
    requires
        values@.len() >= 2,
    ensures
        res.0 == values@[0],
        res.1 == values@[1],
{
    let mut values = values;
    values.truncate(2);
    let high = values.pop().unwrap();
    let low = values.pop().unwrap();
    (low, high)
}

/// The column predicate of one filter atom.
pub fn handle_atom_filter<V>(filter_atom: AtomFilter<V>) -> (res: Condition<V>)
    requires
        filter_atom.condition matches FilterCondition::Between(vs) ==> vs@.len() >= 2,
    ensures
        res == Condition::Column(filter_atom.field, atom_predicate(filter_atom.condition)),
{
    let AtomFilter { field, condition } = filter_atom;
    let predicate = match condition {
        FilterCondition::Equals(value) => ColumnPredicate::Eq(value),
        FilterCondition::Gt(value) => ColumnPredicate::Gt(value),
        FilterCondition::Ge(value) => ColumnPredicate::Gte(value),
        FilterCondition::Lt(value) => ColumnPredicate::Lt(value),
        FilterCondition::Le(value) => ColumnPredicate::Lte(value),
        FilterCondition::In(value) => ColumnPredicate::IsIn(value),
        FilterCondition::NotIn(value) => ColumnPredicate::IsNotIn(value),
        FilterCondition::Like(value) => ColumnPredicate::Like(value),
        FilterCondition::NotLike(value) => ColumnPredicate::NotLike(value),
        FilterCondition::Between(value) => {
            let (low, high) = first_two(value);
            ColumnPredicate::Between(low, high)
        },
        FilterCondition::IsNull => ColumnPredicate::IsNull,
        FilterCondition::IsNotNull => ColumnPredicate::IsNotNull,
    };
    Condition::Column(field, predicate)
}

/// Translates a filter tree into a condition of the SQL builder.
#[verifier::loop_isolation(false)]
pub fn handle_filter<V>(filter: Filter<V>) -> (res: Condition<V>)
    requires
        filter_well_formed(filter),
    ensures
        translates(filter, res),
    decreases filter,
{
    let ghost original = filter;
    match filter {
        Filter::Atom(atom) => handle_atom_filter(atom),
        Filter::And(filters) => {
            let ghost parts = filters@;
            let mut conditions: Vec<Condition<V>> = Vec::new();
            for f in it: filters
                invariant
                    parts == it.seq(),
                    original matches Filter::And(fs) && fs@ == parts,
                    filter_well_formed(original),
                    conditions@.len() == it.index(),
                    forall|j: int| 0 <= j < it.index() ==> translates(#[trigger] parts[j], conditions@[j]),
            {
                assert(f == parts[it.index() as int]);
                assert(filter_well_formed(parts[it.index() as int]));
                assert(decreases_to!(original => f));
                conditions.push(handle_filter(f));
            }
            Condition::All(conditions)
        },
        Filter::Or(filters) => {
            let ghost parts = filters@;
            let mut conditions: Vec<Condition<V>> = Vec::new();
            for f in it: filters
                invariant
                    parts == it.seq(),
                    original matches Filter::Or(fs) && fs@ == parts,
                    filter_well_formed(original),
                    conditions@.len() == it.index(),
                    forall|j: int| 0 <= j < it.index() ==> translates(#[trigger] parts[j], conditions@[j]),
            {
                assert(f == parts[it.index() as int]);
                assert(filter_well_formed(parts[it.index() as int]));
                assert(decreases_to!(original => f));
                conditions.push(handle_filter(f));
            }
            Condition::Any(conditions)
        },
    }
}

impl<V> Filter<V> {
    /// The condition of the SQL builder that the filter stands for.
    pub fn into_condition(self) -> (res: Condition<V>)
        requires
            filter_well_formed(self),
        ensures
            translates(self, res),
    {
        handle_filter(self)
    }
}

/// Whether a filter can be translated: every `Between` in it has at least
/// two values.
#[verifier::loop_isolation(false)]
pub fn filter_is_well_formed<V>(filter: &Filter<V>) -> (res: bool)
    ensures
        res == filter_well_formed(*filter),
    decreases filter,
{
    match filter {
        Filter::Atom(a) => match &a.condition {
            FilterCondition::Between(values) => values.len() >= 2,
            _ => true,
        },
        Filter::And(filters) | Filter::Or(filters) => {
            let mut i: usize = 0;
            while i < filters.len()
                invariant
                    i <= filters@.len(),
                    forall|j: int| 0 <= j < i ==> filter_well_formed(#[trigger] filters@[j]),
                decreases filters@.len() - i,
            {
                assert(decreases_to!(*filter => filters@[i as int]));
                if !filter_is_well_formed(&filters[i]) {
                    return false;
                }
                i = i + 1;
            }
            true
        },
    }
}

} // verus!

verus! {

/// Whether a condition holds, given what each column predicate means on the
/// row at hand: `All` holds when every part holds, `Any` when some part does.
pub open spec fn condition_holds<V>(
    c: Condition<V>,
    column_holds: spec_fn(String, ColumnPredicate<V>) -> bool,
) -> bool
    decreases c,
{
    match c {
        Condition::Column(name, p) => column_holds(name, p),
        Condition::All(cs) => forall|i: int|
            0 <= i < cs@.len() ==> condition_holds(#[trigger] cs@[i], column_holds),
        Condition::Any(cs) => exists|i: int|
            0 <= i < cs@.len() && condition_holds(#[trigger] cs@[i], column_holds),
    }
}

/// Whether a filter holds, given what each column predicate means on the
/// row at hand: an atom holds when its field meets its condition, `And` when
/// every part holds, `Or` when some part does.
pub open spec fn filter_holds<V>(
    f: Filter<V>,
    column_holds: spec_fn(String, ColumnPredicate<V>) -> bool,
) -> bool
    decreases f,
{
    match f {
        Filter::Atom(a) => column_holds(a.field, atom_predicate(a.condition)),
        Filter::And(fs) => forall|i: int|
            0 <= i < fs@.len() ==> filter_holds(#[trigger] fs@[i], column_holds),
        Filter::Or(fs) => exists|i: int|
            0 <= i < fs@.len() && filter_holds(#[trigger] fs@[i], column_holds),
    }
}

/// The translation of a filter keeps its meaning: on every row, the
/// condition that `handle_filter` builds holds exactly when the filter does.
pub proof fn law_translation_keeps_meaning<V>(
    f: Filter<V>,
    c: Condition<V>,
    column_holds: spec_fn(String, ColumnPredicate<V>) -> bool,
)
    requires
        translates(f, c),
    ensures
        condition_holds(c, column_holds) == filter_holds(f, column_holds),
    decreases f,
{
    match f {
        Filter::Atom(a) => {},
        Filter::And(fs) => {
            let cs = c->All_0;
            assert forall|i: int| 0 <= i < fs@.len() implies condition_holds(cs@[i], column_holds)
                == filter_holds(#[trigger] fs@[i], column_holds) by {
                assert(decreases_to!(f => fs@[i]));
                law_translation_keeps_meaning(fs@[i], cs@[i], column_holds);
            }
            if filter_holds(f, column_holds) {
                assert forall|i: int| 0 <= i < cs@.len() implies condition_holds(
                    #[trigger] cs@[i],
                    column_holds,
                ) by {
                    assert(filter_holds(fs@[i], column_holds));
                }
            }
            if condition_holds(c, column_holds) {
                assert forall|i: int| 0 <= i < fs@.len() implies filter_holds(
                    #[trigger] fs@[i],
                    column_holds,
                ) by {
                    assert(condition_holds(cs@[i], column_holds));
                }
            }
        },
        Filter::Or(fs) => {
            let cs = c->Any_0;
            assert forall|i: int| 0 <= i < fs@.len() implies condition_holds(cs@[i], column_holds)
                == filter_holds(#[trigger] fs@[i], column_holds) by {
                assert(decreases_to!(f => fs@[i]));
                law_translation_keeps_meaning(fs@[i], cs@[i], column_holds);
            }
            if filter_holds(f, column_holds) {
                let i = choose|i: int| 0 <= i < fs@.len() && filter_holds(#[trigger] fs@[i], column_holds);
                assert(condition_holds(cs@[i], column_holds));
            }
            if condition_holds(c, column_holds) {
                let i = choose|i: int| 0 <= i < cs@.len() && condition_holds(#[trigger] cs@[i], column_holds);
                assert(filter_holds(fs@[i], column_holds));
            }
        },
    }
}

} // verus!

verus! {

/// What a client's condition asks of a field's value `x` (`None` is SQL
/// `NULL`), given the order of values (`less`) and pattern matching
/// (`like`): `Equals` asks for that value, `Gt`, `Ge`, `Lt` and `Le` for a
/// greater, greater-or-equal, smaller and smaller-or-equal one, `In` and
/// `NotIn` for membership, `Like` and `NotLike` for a match of the pattern,
/// `Between` for a value between its first two values inclusively, and
/// `IsNull` and `IsNotNull` for a missing and a present value.
pub open spec fn condition_asks<V>(
    c: FilterCondition<V>,
    x: Option<V>,
    less: spec_fn(V, V) -> bool,
    like: spec_fn(V, Seq<char>) -> bool,
) -> bool {
    match c {
        FilterCondition::Equals(v) => x == Some(v),
        FilterCondition::Gt(v) => x matches Some(y) && less(v, y),
        FilterCondition::Ge(v) => x matches Some(y) && (less(v, y) || y == v),
        FilterCondition::Lt(v) => x matches Some(y) && less(y, v),
        FilterCondition::Le(v) => x matches Some(y) && (less(y, v) || y == v),
        FilterCondition::In(vs) => x matches Some(y) && vs@.contains(y),
        FilterCondition::NotIn(vs) => x matches Some(y) && !vs@.contains(y),
        FilterCondition::Like(p) => x matches Some(y) && like(y, p@),
        FilterCondition::NotLike(p) => x matches Some(y) && !like(y, p@),
        FilterCondition::Between(vs) => x matches Some(y) && (less(vs@[0], y) || y == vs@[0]) && (
        less(y, vs@[1]) || y == vs@[1]),
        FilterCondition::IsNull => x is None,
        FilterCondition::IsNotNull => x is Some,
    }
}

/// Whether an SQL column predicate holds of a column's value `x` (`None` is
/// `NULL`, on which every comparison is false), given the order of values
/// and pattern matching: `=`, `>`, `>=`, `<`, `<=`, `IN`, `NOT IN`, `LIKE`,
/// `NOT LIKE`, `BETWEEN low AND high`, `IS NULL` and `IS NOT NULL`.
pub open spec fn sql_predicate_holds<V>(
    p: ColumnPredicate<V>,
    x: Option<V>,
    less: spec_fn(V, V) -> bool,
    like: spec_fn(V, Seq<char>) -> bool,
) -> bool {
    match p {
        ColumnPredicate::Eq(v) => x == Some(v),
        ColumnPredicate::Gt(v) => x matches Some(y) && less(v, y),
        ColumnPredicate::Gte(v) => x matches Some(y) && (less(v, y) || y == v),
        ColumnPredicate::Lt(v) => x matches Some(y) && less(y, v),
        ColumnPredicate::Lte(v) => x matches Some(y) && (less(y, v) || y == v),
        ColumnPredicate::IsIn(vs) => x matches Some(y) && vs@.contains(y),
        ColumnPredicate::IsNotIn(vs) => x matches Some(y) && !vs@.contains(y),
        ColumnPredicate::Like(p) => x matches Some(y) && like(y, p@),
        ColumnPredicate::NotLike(p) => x matches Some(y) && !like(y, p@),
        ColumnPredicate::Between(low, high) => x matches Some(y) && (less(low, y) || y == low) && (
        less(y, high) || y == high),
        ColumnPredicate::IsNull => x is None,
        ColumnPredicate::IsNotNull => x is Some,
    }
}

/// The column predicate of an atom holds of a value exactly when the
/// client's condition asks for that value: `Lt(v)` gives a predicate true of
/// the values below `v`, and so on for every condition.
pub proof fn law_atom_predicate_means_condition<V>(
    c: FilterCondition<V>,
    x: Option<V>,
    less: spec_fn(V, V) -> bool,
    like: spec_fn(V, Seq<char>) -> bool,
)
    requires
        c matches FilterCondition::Between(vs) ==> vs@.len() >= 2,
    ensures
        sql_predicate_holds(atom_predicate(c), x, less, like) == condition_asks(c, x, less, like),
{
}

/// Whether a filter asks for a row, with each atom asking its condition of
/// the row's value of its field.
pub open spec fn filter_asks<V>(
    f: Filter<V>,
    row: spec_fn(String) -> Option<V>,
    less: spec_fn(V, V) -> bool,
    like: spec_fn(V, Seq<char>) -> bool,
) -> bool
    decreases f,
{
    match f {
        Filter::Atom(a) => condition_asks(a.condition, row(a.field), less, like),
        Filter::And(fs) => forall|i: int|
            0 <= i < fs@.len() ==> filter_asks(#[trigger] fs@[i], row, less, like),
        Filter::Or(fs) => exists|i: int|
            0 <= i < fs@.len() && filter_asks(#[trigger] fs@[i], row, less, like),
    }
}

/// What the SQL condition says of a row: each column predicate holds of the
/// row's value of its column.
pub open spec fn sql_row_meaning<V>(
    row: spec_fn(String) -> Option<V>,
    less: spec_fn(V, V) -> bool,
    like: spec_fn(V, Seq<char>) -> bool,
) -> spec_fn(String, ColumnPredicate<V>) -> bool {
    |name: String, p: ColumnPredicate<V>| sql_predicate_holds(p, row(name), less, like)
}

/// The SQL condition that `handle_filter` builds selects exactly the rows
/// that the client's filter asks for.
pub proof fn law_translation_selects_asked_rows<V>(
    f: Filter<V>,
    c: Condition<V>,
    row: spec_fn(String) -> Option<V>,
    less: spec_fn(V, V) -> bool,
    like: spec_fn(V, Seq<char>) -> bool,
)
    requires
        filter_well_formed(f),
        translates(f, c),
    ensures
        condition_holds(c, sql_row_meaning(row, less, like)) == filter_asks(f, row, less, like),
{
    let m = sql_row_meaning(row, less, like);
    law_translation_keeps_meaning(f, c, m);
    lemma_filter_holds_asks(f, row, less, like);
}

proof fn lemma_filter_holds_asks<V>(
    f: Filter<V>,
    row: spec_fn(String) -> Option<V>,
    less: spec_fn(V, V) -> bool,
    like: spec_fn(V, Seq<char>) -> bool,
)
    requires
        filter_well_formed(f),
    ensures
        filter_holds(f, sql_row_meaning(row, less, like)) == filter_asks(f, row, less, like),
    decreases f,
{
    let m = sql_row_meaning(row, less, like);
    match f {
        Filter::Atom(a) => {
            law_atom_predicate_means_condition(a.condition, row(a.field), less, like);
        },
        Filter::And(fs) => {
            assert forall|i: int| 0 <= i < fs@.len() implies filter_holds(#[trigger] fs@[i], m)
                == filter_asks(fs@[i], row, less, like) by {
                assert(decreases_to!(f => fs@[i]));
                lemma_filter_holds_asks(fs@[i], row, less, like);
            }
            if filter_holds(f, m) {
                assert forall|i: int| 0 <= i < fs@.len() implies filter_asks(
                    #[trigger] fs@[i],
                    row,
                    less,
                    like,
                ) by {
                    assert(filter_holds(fs@[i], m));
                }
            }
            if filter_asks(f, row, less, like) {
                assert forall|i: int| 0 <= i < fs@.len() implies filter_holds(#[trigger] fs@[i], m) by {
                    assert(filter_asks(fs@[i], row, less, like));
                }
            }
        },
        Filter::Or(fs) => {
            assert forall|i: int| 0 <= i < fs@.len() implies filter_holds(#[trigger] fs@[i], m)
                == filter_asks(fs@[i], row, less, like) by {
                assert(decreases_to!(f => fs@[i]));
                lemma_filter_holds_asks(fs@[i], row, less, like);
            }
            if filter_holds(f, m) {
                let i = choose|i: int| 0 <= i < fs@.len() && filter_holds(#[trigger] fs@[i], m);
                assert(filter_asks(fs@[i], row, less, like));
            }
            if filter_asks(f, row, less, like) {
                let i = choose|i: int| 0 <= i < fs@.len() && filter_asks(#[trigger] fs@[i], row, less, like);
                assert(filter_holds(fs@[i], m));
            }
        },
    }
}

} // verus!
