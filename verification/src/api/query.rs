//! TMF630 query construction: attribute selection, filtering, sorting, paging.
use vstd::prelude::*;
use vstd::string::*;
use crate::entries::{
    entry_map, lemma_entry_map_at, lemma_insert_new, lemma_sorted_unique, lemma_update_value,
    locate, sorted_keys,
};
use crate::text::{
    chars_of, decimal, decimal_string, join, join_strings, opt_str, push_chars, push_str, strs,
};

verus! {

/// A comparison in a TMF630 attribute filter.
///
/// TMF630 expresses a filter as a query parameter named after the attribute,
/// optionally suffixed with an operator: `price.value.gte=100`. Bare equality
/// needs no suffix, which is why [`FilterOp::Eq`] renders as nothing.
#[derive(Debug, Clone, Copy, PartialEq, Eq, Structural, PartialOrd, Ord, Hash)]
pub enum FilterOp {
    /// Equal — the bare `attribute=value` form.
    Eq,
    /// Not equal.
    Ne,
    /// Greater than.
    Gt,
    /// Greater than or equal.
    Gte,
    /// Less than.
    Lt,
    /// Less than or equal.
    Lte,
    /// Matches a regular expression.
    Regex,
}

impl Default for FilterOp {
    fn default() -> (r: Self)
        ensures
            r == FilterOp::Eq,
    {
        FilterOp::Eq
    }
}

impl FilterOp {
    /// The suffix this operator adds to an attribute name, if any.
    pub open spec fn suffix_of(self) -> Option<Seq<char>> {
        match self {
            FilterOp::Eq => None,
            FilterOp::Ne => Some("ne"@),
            FilterOp::Gt => Some("gt"@),
            FilterOp::Gte => Some("gte"@),
            FilterOp::Lt => Some("lt"@),
            FilterOp::Lte => Some("lte"@),
            FilterOp::Regex => Some("regex"@),
        }
    }

    /// The query-parameter name this operator gives `attribute`.
    pub open spec fn parameter_of(self, attribute: Seq<char>) -> Seq<char> {
        match self.suffix_of() {
            Some(suffix) => attribute + "."@ + suffix,
            None => attribute,
        }
    }

    /// The suffix this operator adds to the attribute name, if any.
    pub fn suffix(self) -> (r: Option<&'static str>)
        ensures
            r is None <==> self.suffix_of() is None,
            r matches Some(s) ==> self.suffix_of() == Some(s@),
    {
        match self {
            FilterOp::Eq => None,
            FilterOp::Ne => Some("ne"),
            FilterOp::Gt => Some("gt"),
            FilterOp::Gte => Some("gte"),
            FilterOp::Lt => Some("lt"),
            FilterOp::Lte => Some("lte"),
            FilterOp::Regex => Some("regex"),
        }
    }

    /// The query-parameter name this operator produces for `attribute`.
    pub fn parameter_for(self, attribute: &str) -> (r: String)
        ensures
            r@ == self.parameter_of(attribute@),
    {
        match self.suffix() {
            Some(suffix) => {
                let mut name = attribute.to_owned();
                push_str(&mut name, ".");
                push_str(&mut name, suffix);
                name
            },
            None => attribute.to_owned(),
        }
    }
}

/// What a [`Query`] asks for.
pub struct QueryView {
    /// The attributes selected with `fields=`, in order.
    pub fields: Seq<Seq<char>>,
    /// The filters, by rendered parameter name, each with its values in order.
    pub filters: Map<Seq<char>, Seq<Seq<char>>>,
    /// The sort keys, in order.
    pub sort: Seq<Seq<char>>,
    /// The start index of the page.
    pub offset: Option<usize>,
    /// The page size.
    pub limit: Option<usize>,
    /// The cursor to start after.
    pub after: Option<Seq<char>>,
    /// The cursor to end before.
    pub before: Option<Seq<char>>,
    /// The `JSONPath` filter expression.
    pub json_path: Option<Seq<char>>,
}

/// The query that asks for nothing in particular: no fields, filters or
/// sort keys, no paging and no cursors.
pub open spec fn empty_query() -> QueryView {
    QueryView {
        fields: Seq::empty(),
        filters: Map::empty(),
        sort: Seq::empty(),
        offset: None,
        limit: None,
        after: None,
        before: None,
        json_path: None,
    }
}

impl QueryView {
    /// This query with `values` added to the filter named `name`.
    ///
    /// Repeating a name widens the filter: the values accumulate.
    pub open spec fn with_filter(self, name: Seq<char>, values: Seq<Seq<char>>) -> QueryView {
        QueryView {
            filters: self.filters.insert(
                name,
                if self.filters.contains_key(name) {
                    self.filters[name] + values
                } else {
                    values
                },
            ),
            ..self
        }
    }
}

/// Filters on different parameter names commute: the order in which they
/// were added does not change what is asked for.
pub proof fn lemma_filters_commute(
    q: QueryView,
    a: Seq<char>,
    x: Seq<Seq<char>>,
    b: Seq<char>,
    y: Seq<Seq<char>>,
)
    requires
        a != b,
    ensures
        q.with_filter(a, x).with_filter(b, y) == q.with_filter(b, y).with_filter(a, x),
{
    assert(q.with_filter(a, x).with_filter(b, y).filters =~= q.with_filter(b, y).with_filter(
        a,
        x,
    ).filters);
}

/// Repeating a filter widens it: adding `x` and then `y` under one name is
/// adding `x` followed by `y` at once.
pub proof fn lemma_repeated_filter_widens(q: QueryView, a: Seq<char>, x: Seq<Seq<char>>, y: Seq<Seq<char>>)
    ensures
        q.with_filter(a, x).with_filter(a, y) == q.with_filter(a, x + y),
{
    if q.filters.contains_key(a) {
        assert(q.filters[a] + x + y =~= q.filters[a] + (x + y));
    }
    assert(q.with_filter(a, x).with_filter(a, y).filters =~= q.with_filter(a, x + y).filters);
}

/// `q` with a filter on `name` added once for each of `values`, in order:
/// what repeated [`Query::filter`] calls ask for.
pub open spec fn with_each_filter(q: QueryView, name: Seq<char>, values: Seq<Seq<char>>) -> QueryView
    decreases values.len(),
{
    if values.len() == 0 {
        q
    } else {
        with_each_filter(q.with_filter(name, seq![values[0]]), name, values.drop_first())
    }
}

/// Alternatives given at once are alternatives given one by one: adding a
/// filter on `name` for all of `values` asks for what adding one for each
/// value in turn asks for, however many there are. (With no values at all
/// the two differ: the one call still names the filter.)
pub proof fn lemma_filter_any_is_repeated_filter(q: QueryView, name: Seq<char>, values: Seq<Seq<char>>)
    requires
        values.len() >= 1,
    ensures
        q.with_filter(name, values) == with_each_filter(q, name, values),
    decreases values.len(),
{
    let first = seq![values[0]];
    let rest = values.drop_first();
    if rest.len() == 0 {
        assert(values =~= first);
        assert(with_each_filter(q.with_filter(name, first), name, rest) == q.with_filter(name, first));
    } else {
        lemma_repeated_filter_widens(q, name, first, rest);
        assert(first + rest =~= values);
        lemma_filter_any_is_repeated_filter(q.with_filter(name, first), name, rest);
    }
}

/// The parameters a query renders to, by name.
///
/// The reserved names — `fields`, `sort`, `offset`, `limit`, `after`,
/// `before` and `filter` — win over a filter of the same name.
pub open spec fn query_params(q: QueryView) -> Map<Seq<char>, Seq<char>> {
    let m0 = q.filters.map_values(|values: Seq<Seq<char>>| join(values, ","@));
    let m1 = if q.fields.len() > 0 {
        m0.insert("fields"@, join(q.fields, ","@))
    } else {
        m0
    };
    let m2 = if q.sort.len() > 0 {
        m1.insert("sort"@, join(q.sort, ","@))
    } else {
        m1
    };
    let m3 = match q.offset {
        Some(n) => m2.insert("offset"@, decimal(n as nat)),
        None => m2,
    };
    let m4 = match q.limit {
        Some(n) => m3.insert("limit"@, decimal(n as nat)),
        None => m3,
    };
    let m5 = match q.after {
        Some(c) => m4.insert("after"@, c),
        None => m4,
    };
    let m6 = match q.before {
        Some(c) => m5.insert("before"@, c),
        None => m5,
    };
    match q.json_path {
        Some(e) => m6.insert("filter"@, e),
        None => m6,
    }
}

/// The views of the filter entries, name and values.
pub open spec fn filter_entries(v: Seq<(String, Vec<String>)>) -> Seq<(Seq<char>, Seq<Seq<char>>)> {
    v.map_values(|e: (String, Vec<String>)| (e.0@, strs(e.1@)))
}

/// The views of parameter entries.
pub open spec fn param_entries(v: Seq<(String, String)>) -> Seq<(Seq<char>, Seq<char>)> {
    v.map_values(|e: (String, String)| (e.0@, e.1@))
}

/// The views of a slice of string slices.
pub open spec fn strs_of(v: Seq<&str>) -> Seq<Seq<char>> {
    v.map_values(|s: &str| s@)
}

/// A TMF630 collection query.
///
/// Builds the `fields`, `offset`, `limit`, `sort` and attribute-filter
/// parameters TMF630 defines for a collection. Repeating an attribute with the
/// same operator widens the filter rather than replacing it, which is what
/// the comma list means on the wire.
#[derive(Debug, PartialEq, Eq)]
pub struct Query {
    fields: Vec<String>,
    /// Sorted by rendered parameter name, each name once, so `a`, `a.gte`
    /// and `a.lt` are independent while repeats of one accumulate.
    filters: Vec<(String, Vec<String>)>,
    sort: Vec<String>,
    offset: Option<usize>,
    limit: Option<usize>,
    after: Option<String>,
    before: Option<String>,
    json_path: Option<String>,
}

impl View for Query {
    type V = QueryView;

    closed spec fn view(&self) -> QueryView {
        QueryView {
            fields: strs(self.fields@),
            filters: entry_map(filter_entries(self.filters@)),
            sort: strs(self.sort@),
            offset: self.offset,
            limit: self.limit,
            after: opt_str(self.after),
            before: opt_str(self.before),
            json_path: opt_str(self.json_path),
        }
    }
}

impl Clone for Query {
    fn clone(&self) -> (r: Self)
        ensures
            r@ == self@,
    {
        self.duplicate()
    }
}

/// A copy of a list of strings.
fn copy_strings(v: &Vec<String>) -> (r: Vec<String>)
    ensures
        strs(r@) == strs(v@),
{
    let mut out: Vec<String> = Vec::new();
    let mut i: usize = 0;
    while i < v.len()
        invariant
            i <= v@.len(),
            out@.len() == i,
            forall|j: int| 0 <= j < i ==> #[trigger] out@[j]@ == v@[j]@,
        decreases v@.len() - i,
    {
        out.push(v[i].clone());
        i = i + 1;
    }
    assert(strs(out@) =~= strs(v@));
    out
}

/// Owned copies of string slices.
fn owned_strings(v: &[&str]) -> (r: Vec<String>)
    ensures
        strs(r@) == strs_of(v@),
{
    let mut out: Vec<String> = Vec::new();
    let mut i: usize = 0;
    while i < v.len()
        invariant
            i <= v@.len(),
            out@.len() == i,
            forall|j: int| 0 <= j < i ==> #[trigger] out@[j]@ == v@[j]@,
        decreases v@.len() - i,
    {
        out.push(v[i].to_owned());
        i = i + 1;
    }
    assert(strs(out@) =~= strs_of(v@));
    out
}

fn copy_opt(o: &Option<String>) -> (r: Option<String>)
    ensures
        opt_str(r) == opt_str(*o),
{
    match o {
        Some(s) => Some(s.clone()),
        None => None,
    }
}

proof fn lemma_filter_names_sorted(s: Seq<(String, Vec<String>)>)
    requires
        sorted_keys(filter_entries(s)),
    ensures
        forall|i: int, j: int|
            0 <= i < j < s.len() ==> crate::text::chars_lt(#[trigger] s[i].0@, #[trigger] s[j].0@),
{
    assert forall|i: int, j: int| 0 <= i < j < s.len() implies crate::text::chars_lt(
        #[trigger] s[i].0@,
        #[trigger] s[j].0@,
    ) by {
        assert(filter_entries(s)[i].0 == s[i].0@);
        assert(filter_entries(s)[j].0 == s[j].0@);
    }
}

proof fn lemma_param_names_sorted(s: Seq<(String, String)>)
    requires
        sorted_keys(param_entries(s)),
    ensures
        forall|i: int, j: int|
            0 <= i < j < s.len() ==> crate::text::chars_lt(#[trigger] s[i].0@, #[trigger] s[j].0@),
{
    assert forall|i: int, j: int| 0 <= i < j < s.len() implies crate::text::chars_lt(
        #[trigger] s[i].0@,
        #[trigger] s[j].0@,
    ) by {
        assert(param_entries(s)[i].0 == s[i].0@);
        assert(param_entries(s)[j].0 == s[j].0@);
    }
}

/// Adds `values` to the filter named `key`, keeping the names sorted.
fn add_filter_values(filters: &mut Vec<(String, Vec<String>)>, key: String, values: Vec<String>)
    requires
        sorted_keys(filter_entries(old(filters)@)),
    ensures
        sorted_keys(filter_entries(final(filters)@)),
        entry_map(filter_entries(final(filters)@)) == entry_map(
            filter_entries(old(filters)@),
        ).insert(
            key@,
            if entry_map(filter_entries(old(filters)@)).contains_key(key@) {
                entry_map(filter_entries(old(filters)@))[key@] + strs(values@)
            } else {
                strs(values@)
            },
        ),
{
    let ghost s0 = filter_entries(filters@);
    let name = chars_of(key.as_str());
    proof {
        lemma_filter_names_sorted(filters@);
    }
    let (pos, found) = locate(filters, name.as_slice());
    if found {
        let (k, mut vs) = filters.remove(pos);
        let ghost old_vs = strs(vs@);
        let ghost old_raw = vs@;
        let mut i: usize = 0;
        while i < values.len()
            invariant
                i <= values@.len(),
                vs@.len() == old_raw.len() + i,
                forall|j: int| 0 <= j < old_raw.len() ==> #[trigger] vs@[j] == old_raw[j],
                forall|j: int| 0 <= j < i ==> #[trigger] vs@[old_raw.len() + j]@ == values@[j]@,
            decreases values@.len() - i,
        {
            vs.push(values[i].clone());
            i = i + 1;
        }
        assert forall|j: int| 0 <= j < vs@.len() implies #[trigger] strs(vs@)[j] == (old_vs + strs(values@))[j] by {
            if j >= old_raw.len() {
                assert(vs@[old_raw.len() + (j - old_raw.len())]@ == values@[j - old_raw.len()]@);
            }
        }
        assert(strs(vs@) =~= old_vs + strs(values@));
        filters.insert(pos, (k, vs));
        proof {
            assert(s0[pos as int].0 == key@);
            lemma_entry_map_at(s0, pos as int);
            lemma_update_value(s0, pos as int, old_vs + strs(values@));
            assert(filter_entries(filters@) =~= s0.update(
                pos as int,
                (s0[pos as int].0, old_vs + strs(values@)),
            ));
        }
    } else {
        filters.insert(pos, (key, values));
        proof {
            lemma_insert_new(s0, pos as int, key@, strs(values@));
            assert(filter_entries(filters@) =~= s0.insert(pos as int, (key@, strs(values@))));
            if entry_map(s0).contains_key(key@) {
                let j = choose|j: int| 0 <= j < s0.len() && #[trigger] s0[j].0 == key@;
                crate::text::lemma_chars_lt_irreflexive(key@);
            }
        }
    }
}

/// Sets the parameter named `key` to `value`, keeping the names sorted.
fn put_param(params: &mut Vec<(String, String)>, key: &str, value: String)
    requires
        sorted_keys(param_entries(old(params)@)),
    ensures
        sorted_keys(param_entries(final(params)@)),
        entry_map(param_entries(final(params)@)) == entry_map(param_entries(old(params)@)).insert(
            key@,
            value@,
        ),
{
    let ghost s0 = param_entries(params@);
    let name = chars_of(key);
    proof {
        lemma_param_names_sorted(params@);
    }
    let (pos, found) = locate(params, name.as_slice());
    if found {
        let (k, _) = params.remove(pos);
        params.insert(pos, (k, value));
        proof {
            lemma_update_value(s0, pos as int, value@);
            assert(param_entries(params@) =~= s0.update(pos as int, (s0[pos as int].0, value@)));
        }
    } else {
        params.insert(pos, (key.to_owned(), value));
        proof {
            lemma_insert_new(s0, pos as int, key@, value@);
            assert(param_entries(params@) =~= s0.insert(pos as int, (key@, value@)));
        }
    }
}

impl Default for Query {
    /// The empty query, the same as [`Query::new`].
    fn default() -> (r: Self)
        ensures
            r@ == empty_query(),
    {
        Query::new()
    }
}

impl Query {
    #[verifier::type_invariant]
    spec fn filters_sorted(self) -> bool {
        sorted_keys(filter_entries(self.filters@))
    }

    /// An empty query.
    pub fn new() -> (r: Self)
        ensures
            r@.fields.len() == 0,
            r@.filters == Map::<Seq<char>, Seq<Seq<char>>>::empty(),
            r@.sort.len() == 0,
            r@.offset is None,
            r@.limit is None,
            r@.after is None,
            r@.before is None,
            r@.json_path is None,
            r@ == empty_query(),
    {
        let r = Query {
            fields: Vec::new(),
            filters: Vec::new(),
            sort: Vec::new(),
            offset: None,
            limit: None,
            after: None,
            before: None,
            json_path: None,
        };
        assert(entry_map(filter_entries(r.filters@)) =~= Map::<
            Seq<char>,
            Seq<Seq<char>>,
        >::empty());
        assert(r@.fields =~= Seq::<Seq<char>>::empty());
        assert(r@.sort =~= Seq::<Seq<char>>::empty());
        r
    }

    /// Restricts the response to the named attributes (`fields=`).
    ///
    /// Servers always return `id` and `href` regardless.
    pub fn fields(self, fields: &[&str]) -> (r: Self)
        ensures
            r@ == (QueryView { fields: self@.fields + strs_of(fields@), ..self@ }),
    {
        proof {
            use_type_invariant(&self);
        }
        let Query { fields: mut all, filters, sort, offset, limit, after, before, json_path } =
            self;
        let extra = owned_strings(fields);
        let ghost start = strs(all@);
        let ghost raw = all@;
        let mut i: usize = 0;
        while i < extra.len()
            invariant
                i <= extra@.len(),
                all@.len() == raw.len() + i,
                forall|j: int| 0 <= j < raw.len() ==> #[trigger] all@[j] == raw[j],
                forall|j: int| 0 <= j < i ==> #[trigger] all@[raw.len() + j]@ == extra@[j]@,
            decreases extra@.len() - i,
        {
            all.push(extra[i].clone());
            i = i + 1;
        }
        assert forall|j: int| 0 <= j < all@.len() implies #[trigger] strs(all@)[j] == (start + strs(extra@))[j] by {
            if j >= raw.len() {
                assert(all@[raw.len() + (j - raw.len())]@ == extra@[j - raw.len()]@);
            }
        }
        assert(strs(all@) =~= start + strs(extra@));
        Query { fields: all, filters, sort, offset, limit, after, before, json_path }
    }

    /// Adds an equality filter, e.g. `lifecycleStatus=Active`.
    ///
    /// Dotted paths select nested attributes (`productSpecification.id`).
    /// Calling this twice for one attribute matches *either* value.
    pub fn filter(self, attribute: &str, value: &str) -> (r: Self)
        ensures
            r@ == self@.with_filter(attribute@, seq![value@]),
    {
        self.filter_op(attribute, FilterOp::Eq, value)
    }

    /// Adds a filter with an explicit comparison, e.g. `price.value.gte=100`.
    ///
    /// Combine two calls on one attribute to express a range.
    pub fn filter_op(self, attribute: &str, op: FilterOp, value: &str) -> (r: Self)
        ensures
            r@ == self@.with_filter(op.parameter_of(attribute@), seq![value@]),
    {
        proof {
            use_type_invariant(&self);
        }
        let key = op.parameter_for(attribute);
        let mut values: Vec<String> = Vec::new();
        values.push(value.to_owned());
        assert(strs(values@) =~= seq![value@]);
        let Query { fields, mut filters, sort, offset, limit, after, before, json_path } = self;
        add_filter_values(&mut filters, key, values);
        let r = Query { fields, filters, sort, offset, limit, after, before, json_path };
        assert(r@.filters =~= self@.with_filter(op.parameter_of(attribute@), seq![value@]).filters);
        r
    }

    /// Matches an attribute against any of several values.
    ///
    /// Renders as the comma-separated list TMF630 reads as alternatives:
    /// `state=acknowledged,inProgress`.
    pub fn filter_any(self, attribute: &str, values: &[&str]) -> (r: Self)
        ensures
            r@ == self@.with_filter(attribute@, strs_of(values@)),
    {
        proof {
            use_type_invariant(&self);
        }
        let key = attribute.to_owned();
        let owned = owned_strings(values);
        let Query { fields, mut filters, sort, offset, limit, after, before, json_path } = self;
        add_filter_values(&mut filters, key, owned);
        let r = Query { fields, filters, sort, offset, limit, after, before, json_path };
        assert(r@.filters =~= self@.with_filter(attribute@, strs_of(values@)).filters);
        r
    }

    /// Sorts by an attribute; prefix with `-` for descending order.
    pub fn sort(self, attribute: &str) -> (r: Self)
        ensures
            r@ == (QueryView { sort: self@.sort.push(attribute@), ..self@ }),
    {
        proof {
            use_type_invariant(&self);
        }
        let Query { fields, filters, mut sort, offset, limit, after, before, json_path } = self;
        sort.push(attribute.to_owned());
        let r = Query { fields, filters, sort, offset, limit, after, before, json_path };
        assert(r@.sort =~= self@.sort.push(attribute@));
        r
    }

    /// Sets the start index of the page (`offset=`).
    pub fn offset(self, offset: usize) -> (r: Self)
        ensures
            r@ == (QueryView { offset: Some(offset), ..self@ }),
    {
        proof {
            use_type_invariant(&self);
        }
        let Query { fields, filters, sort, offset: _, limit, after, before, json_path } = self;
        Query { fields, filters, sort, offset: Some(offset), limit, after, before, json_path }
    }

    /// Sets the page size (`limit=`).
    pub fn limit(self, limit: usize) -> (r: Self)
        ensures
            r@ == (QueryView { limit: Some(limit), ..self@ }),
    {
        proof {
            use_type_invariant(&self);
        }
        let Query { fields, filters, sort, offset, limit: _, after, before, json_path } = self;
        Query { fields, filters, sort, offset, limit: Some(limit), after, before, json_path }
    }

    /// Starts the page after an opaque cursor (`after=`).
    ///
    /// The cursor comes from a server, and the only thing a client may do
    /// with one is send it back.
    pub fn after(self, cursor: &str) -> (r: Self)
        ensures
            r@ == (QueryView { after: Some(cursor@), ..self@ }),
    {
        proof {
            use_type_invariant(&self);
        }
        let Query { fields, filters, sort, offset, limit, after: _, before, json_path } = self;
        Query {
            fields,
            filters,
            sort,
            offset,
            limit,
            after: Some(cursor.to_owned()),
            before,
            json_path,
        }
    }

    /// Ends the page before an opaque cursor (`before=`).
    pub fn before(self, cursor: &str) -> (r: Self)
        ensures
            r@ == (QueryView { before: Some(cursor@), ..self@ }),
    {
        proof {
            use_type_invariant(&self);
        }
        let Query { fields, filters, sort, offset, limit, after, before: _, json_path } = self;
        Query {
            fields,
            filters,
            sort,
            offset,
            limit,
            after,
            before: Some(cursor.to_owned()),
            json_path,
        }
    }

    /// Filters with a `JSONPath` expression (`filter=`).
    ///
    /// This is **not** the TMF630 attribute filtering that
    /// [`filter`](Self::filter) produces; the two are not interchangeable.
    pub fn json_path(self, expression: &str) -> (r: Self)
        ensures
            r@ == (QueryView { json_path: Some(expression@), ..self@ }),
    {
        proof {
            use_type_invariant(&self);
        }
        let Query { fields, filters, sort, offset, limit, after, before, json_path: _ } = self;
        Query {
            fields,
            filters,
            sort,
            offset,
            limit,
            after,
            before,
            json_path: Some(expression.to_owned()),
        }
    }

    /// The configured page size, if any.
    pub fn limit_value(&self) -> (r: Option<usize>)
        ensures
            r == self@.limit,
    {
        self.limit
    }

    /// The configured start index, if any.
    pub fn offset_value(&self) -> (r: Option<usize>)
        ensures
            r == self@.offset,
    {
        self.offset
    }

    /// A copy of this query.
    pub fn duplicate(&self) -> (r: Query)
        ensures
            r@ == self@,
    {
        proof {
            use_type_invariant(self);
        }
        let mut filters: Vec<(String, Vec<String>)> = Vec::new();
        let mut i: usize = 0;
        while i < self.filters.len()
            invariant
                i <= self.filters@.len(),
                filters@.len() == i,
                forall|j: int|
                    0 <= j < i ==> #[trigger] filters@[j].0@ == self.filters@[j].0@ && strs(
                        filters@[j].1@,
                    ) == strs(self.filters@[j].1@),
            decreases self.filters@.len() - i,
        {
            let name = self.filters[i].0.clone();
            let values = copy_strings(&self.filters[i].1);
            filters.push((name, values));
            i = i + 1;
        }
        assert forall|j: int| 0 <= j < filters@.len() implies #[trigger] filter_entries(filters@)[j]
            == filter_entries(self.filters@)[j] by {
            assert(filters@[j].0@ == self.filters@[j].0@);
        }
        assert(filter_entries(filters@) =~= filter_entries(self.filters@));
        let r = Query {
            fields: copy_strings(&self.fields),
            filters,
            sort: copy_strings(&self.sort),
            offset: self.offset,
            limit: self.limit,
            after: copy_opt(&self.after),
            before: copy_opt(&self.before),
            json_path: copy_opt(&self.json_path),
        };
        r
    }

    /// Renders the query as parameters, sorted by name.
    ///
    /// The TMF630 reserved names — `fields`, `sort`, `offset`, `limit`,
    /// `after`, `before` and `filter` — win over a filter of the same name:
    /// on the wire they *are* those parameters.
    pub fn to_params(&self) -> (r: Params)
        ensures
            sorted_keys(r@),
            entry_map(r@) == query_params(self@),
    {
        proof {
            use_type_invariant(self);
        }
        let ghost fs = filter_entries(self.filters@);
        let ghost joined = fs.map_values(
            |e: (Seq<char>, Seq<Seq<char>>)| (e.0, join(e.1, ","@)),
        );
        let mut out: Vec<(String, String)> = Vec::new();
        let mut i: usize = 0;
        while i < self.filters.len()
            invariant
                i <= self.filters@.len(),
                fs == filter_entries(self.filters@),
                sorted_keys(fs),
                joined == fs.map_values(|e: (Seq<char>, Seq<Seq<char>>)| (e.0, join(e.1, ","@))),
                out@.len() == i,
                forall|j: int|
                    0 <= j < i ==> #[trigger] out@[j].0@ == joined[j].0 && out@[j].1@ == joined[j].1,
            decreases self.filters@.len() - i,
        {
            let name = self.filters[i].0.clone();
            let value = join_strings(&self.filters[i].1, ",");
            out.push((name, value));
            i = i + 1;
        }
        proof {
            assert forall|j: int| 0 <= j < out@.len() implies #[trigger] param_entries(out@)[j]
                == joined[j] by {
                assert(out@[j].0@ == joined[j].0);
            }
            assert(param_entries(out@) =~= joined);
            assert(sorted_keys(joined));
            assert forall|k: Seq<char>| #[trigger] entry_map(joined).contains_key(k)
                == entry_map(fs).contains_key(k) by {
                if entry_map(fs).contains_key(k) {
                    let j = choose|j: int| 0 <= j < fs.len() && #[trigger] fs[j].0 == k;
                    assert(joined[j].0 == k);
                }
                if entry_map(joined).contains_key(k) {
                    let j = choose|j: int| 0 <= j < joined.len() && #[trigger] joined[j].0 == k;
                    assert(fs[j].0 == k);
                }
            }
            assert forall|k: Seq<char>| #[trigger] entry_map(joined).contains_key(k) implies entry_map(
                joined,
            )[k] == join(entry_map(fs)[k], ","@) by {
                let j = choose|j: int| 0 <= j < joined.len() && #[trigger] joined[j].0 == k;
                lemma_entry_map_at(joined, j);
                lemma_entry_map_at(fs, j);
            }
            assert(entry_map(joined) =~= entry_map(fs).map_values(
                |values: Seq<Seq<char>>| join(values, ","@),
            ));
        }
        if self.fields.len() > 0 {
            put_param(&mut out, "fields", join_strings(&self.fields, ","));
        }
        if self.sort.len() > 0 {
            put_param(&mut out, "sort", join_strings(&self.sort, ","));
        }
        match self.offset {
            Some(n) => put_param(&mut out, "offset", decimal_string(n as u64)),
            None => {},
        }
        match self.limit {
            Some(n) => put_param(&mut out, "limit", decimal_string(n as u64)),
            None => {},
        }
        match &self.after {
            Some(c) => put_param(&mut out, "after", c.clone()),
            None => {},
        }
        match &self.before {
            Some(c) => put_param(&mut out, "before", c.clone()),
            None => {},
        }
        match &self.json_path {
            Some(e) => put_param(&mut out, "filter", e.clone()),
            None => {},
        }
        Params { entries: out }
    }

    /// Renders the query as a percent-encoded query string.
    pub fn to_query_string(&self) -> (r: String)
        ensures
            r@ == query_string(self.to_params_spec()),
    {
        let params = self.to_params();
        proof {
            self.lemma_to_params_spec(params@);
        }
        params.render()
    }

    /// The parameters [`to_params`](Self::to_params) produces, in order.
    pub closed spec fn to_params_spec(&self) -> Seq<(Seq<char>, Seq<char>)> {
        choose|s: Seq<(Seq<char>, Seq<char>)>|
            sorted_keys(s) && entry_map(s) == query_params(self@)
    }

    /// Two queries that ask for the same parameters render them the same,
    /// whatever order they were built in.
    pub proof fn lemma_rendering_determined(&self, other: &Query)
        requires
            query_params(self@) == query_params(other@),
        ensures
            self.to_params_spec() == other.to_params_spec(),
    {
    }

    proof fn lemma_to_params_spec(&self, s: Seq<(Seq<char>, Seq<char>)>)
        requires
            sorted_keys(s),
            entry_map(s) == query_params(self@),
        ensures
            self.to_params_spec() == s,
    {
        let t = self.to_params_spec();
        assert(sorted_keys(t) && entry_map(t) == query_params(self@));
        lemma_sorted_unique(t, s);
    }
}

/// Query parameters, sorted by name, each name once.
pub struct Params {
    entries: Vec<(String, String)>,
}

impl View for Params {
    type V = Seq<(Seq<char>, Seq<char>)>;

    closed spec fn view(&self) -> Seq<(Seq<char>, Seq<char>)> {
        param_entries(self.entries@)
    }
}

impl Params {
    #[verifier::type_invariant]
    spec fn names_sorted(self) -> bool {
        sorted_keys(param_entries(self.entries@))
    }

    /// The number of parameters.
    pub fn len(&self) -> (r: usize)
        ensures
            r == self@.len(),
    {
        self.entries.len()
    }

    /// Whether there are no parameters.
    pub fn is_empty(&self) -> (r: bool)
        ensures
            r == (self@.len() == 0),
    {
        self.entries.len() == 0
    }

    /// The value of the parameter named `name`, if there is one.
    pub fn get(&self, name: &str) -> (r: Option<&String>)
        ensures
            r is Some <==> entry_map(self@).contains_key(name@),
            r matches Some(v) ==> v@ == entry_map(self@)[name@],
    {
        proof {
            use_type_invariant(self);
        }
        let key = chars_of(name);
        proof {
            lemma_param_names_sorted(self.entries@);
        }
        let (pos, found) = locate(&self.entries, key.as_slice());
        proof {
            let s = param_entries(self.entries@);
            if found {
                lemma_entry_map_at(s, pos as int);
            } else if entry_map(s).contains_key(name@) {
                let j = choose|j: int| 0 <= j < s.len() && #[trigger] s[j].0 == name@;
                crate::text::lemma_chars_lt_irreflexive(name@);
                if j < pos {
                    assert(crate::text::chars_lt(s[j].0, name@));
                } else {
                    assert(crate::text::chars_lt(name@, s[j].0));
                }
            }
        }
        if found {
            Some(&self.entries[pos].1)
        } else {
            None
        }
    }

    /// The parameters as name–value pairs, in order.
    pub fn to_pairs(&self) -> (r: Vec<(String, String)>)
        ensures
            param_entries(r@) == self@,
    {
        let mut out: Vec<(String, String)> = Vec::new();
        let mut i: usize = 0;
        while i < self.entries.len()
            invariant
                i <= self.entries@.len(),
                out@.len() == i,
                forall|j: int|
                    0 <= j < i ==> #[trigger] out@[j].0@ == self.entries@[j].0@ && out@[j].1@
                        == self.entries@[j].1@,
            decreases self.entries@.len() - i,
        {
            out.push((self.entries[i].0.clone(), self.entries[i].1.clone()));
            i = i + 1;
        }
        assert(param_entries(out@) =~= param_entries(self.entries@));
        out
    }

    /// The name and value at position `i`.
    pub fn entry(&self, i: usize) -> (r: (&String, &String))
        requires
            i < self@.len(),
        ensures
            r.0@ == self@[i as int].0,
            r.1@ == self@[i as int].1,
    {
        (&self.entries[i].0, &self.entries[i].1)
    }

    /// Renders as `name=value` pairs joined by `&`, percent-encoded.
    pub fn render(&self) -> (r: String)
        ensures
            r@ == query_string(self@),
    {
        let mut out = String::new();
        let mut i: usize = 0;
        let ghost pieces = self@.map_values(
            |e: (Seq<char>, Seq<char>)| encode_spec(e.0) + "="@ + encode_spec(e.1),
        );
        while i < self.entries.len()
            invariant
                i <= self.entries@.len(),
                pieces == self@.map_values(
                    |e: (Seq<char>, Seq<char>)| encode_spec(e.0) + "="@ + encode_spec(e.1),
                ),
                self@ == param_entries(self.entries@),
                out@ == join(pieces.take(i as int), "&"@),
            decreases self.entries@.len() - i,
        {
            assert(pieces.take(i + 1).drop_last() =~= pieces.take(i as int));
            if i > 0 {
                push_str(&mut out, "&");
            }
            let k = encode(self.entries[i].0.as_str());
            let v = encode(self.entries[i].1.as_str());
            push_str(&mut out, k.as_str());
            push_str(&mut out, "=");
            push_str(&mut out, v.as_str());
            proof {
                let now = pieces.take(i + 1);
                assert(now.last() == pieces[i as int]);
                if i == 0 {
                    assert(out@ =~= now[0]);
                } else {
                    assert(out@ =~= join(pieces.take(i as int), "&"@) + "&"@ + now.last());
                }
            }
            i = i + 1;
        }
        assert(pieces.take(self.entries@.len() as int) =~= pieces);
        out
    }
}

/// The query string for sorted parameters.
pub open spec fn query_string(params: Seq<(Seq<char>, Seq<char>)>) -> Seq<char> {
    join(
        params.map_values(|e: (Seq<char>, Seq<char>)| encode_spec(e.0) + "="@ + encode_spec(e.1)),
        "&"@,
    )
}

/// Whether a byte is left as it is by percent-encoding (RFC 3986
/// `unreserved`).
pub open spec fn unreserved(b: u8) -> bool {
    ||| 65 <= b <= 90
    ||| 97 <= b <= 122
    ||| 48 <= b <= 57
    ||| b == 45
    ||| b == 95
    ||| b == 46
    ||| b == 126
}

/// An upper-case hexadecimal digit.
pub open spec fn hex_upper(n: u8) -> char {
    if n < 10 {
        ((n + 48) as u32) as char
    } else {
        ((n + 55) as u32) as char
    }
}

/// How one byte is written in a percent-encoded string.
pub open spec fn encode_byte(b: u8) -> Seq<char> {
    if unreserved(b) {
        seq![(b as u32) as char]
    } else {
        seq!['%', hex_upper(b / 16), hex_upper(b % 16)]
    }
}

/// The percent-encoding of a byte string.
pub open spec fn encode_bytes(bs: Seq<u8>) -> Seq<char>
    decreases bs.len(),
{
    if bs.len() == 0 {
        seq![]
    } else {
        encode_bytes(bs.drop_last()) + encode_byte(bs.last())
    }
}

/// The percent-encoding of a string's UTF-8 bytes.
pub open spec fn encode_spec(s: Seq<char>) -> Seq<char> {
    encode_bytes(vstd::utf8::encode_utf8(s))
}

fn hex_digit(n: u8) -> (c: char)
    requires
        n < 16,
    ensures
        c == hex_upper(n),
{
    if n < 10 {
        (n + 48) as char
    } else {
        (n + 55) as char
    }
}

/// Percent-encodes a query component per RFC 3986.
pub fn encode(value: &str) -> (r: String)
    ensures
        r@ == encode_spec(value@),
{
    let bytes = value.as_bytes();
    let mut out: Vec<char> = Vec::new();
    let mut i: usize = 0;
    while i < bytes.len()
        invariant
            i <= bytes@.len(),
            bytes@ == vstd::utf8::encode_utf8(value@),
            out@ == encode_bytes(bytes@.take(i as int)),
        decreases bytes@.len() - i,
    {
        let b = bytes[i];
        if (65 <= b && b <= 90) || (97 <= b && b <= 122) || (48 <= b && b <= 57) || b == 45 || b
            == 95 || b == 46 || b == 126 {
            out.push(b as char);
        } else {
            out.push('%');
            out.push(hex_digit(b / 16));
            out.push(hex_digit(b % 16));
        }
        assert(bytes@.take(i + 1).drop_last() =~= bytes@.take(i as int));
        assert(out@ =~= encode_bytes(bytes@.take(i + 1)));
        i = i + 1;
    }
    assert(bytes@.take(bytes@.len() as int) =~= bytes@);
    crate::text::string_of(out.as_slice())
}


/// Whether a character may stand for itself in a URI component: RFC 3986
/// `unreserved` — a letter, a digit, `-`, `.`, `_` or `~`.
pub open spec fn uri_unreserved_char(c: char) -> bool {
    let v = c as u32;
    ||| 0x41 <= v <= 0x5A
    ||| 0x61 <= v <= 0x7A
    ||| 0x30 <= v <= 0x39
    ||| c == '-'
    ||| c == '.'
    ||| c == '_'
    ||| c == '~'
}

/// The value of a hexadecimal digit, either case.
pub open spec fn hex_value(c: char) -> Option<int> {
    let v = c as u32;
    if 0x30 <= v <= 0x39 {
        Some(v - 0x30)
    } else if 0x41 <= v <= 0x46 {
        Some(v - 0x41 + 10)
    } else if 0x61 <= v <= 0x66 {
        Some(v - 0x61 + 10)
    } else {
        None
    }
}

/// The bytes a percent-encoded URI component stands for: `%XX` is the byte
/// `XX`, an unreserved character is its own byte, and anything else (a raw
/// `+`, a space, a lone `%`) makes the component malformed.
pub open spec fn percent_decode(s: Seq<char>) -> Option<Seq<u8>>
    decreases s.len(),
{
    if s.len() == 0 {
        Some(Seq::empty())
    } else if s[0] == '%' {
        if s.len() >= 3 && hex_value(s[1]) is Some && hex_value(s[2]) is Some {
            match percent_decode(s.skip(3)) {
                Some(rest) => Some(
                    seq![(hex_value(s[1])->0 * 16 + hex_value(s[2])->0) as u8] + rest,
                ),
                None => None,
            }
        } else {
            None
        }
    } else if uri_unreserved_char(s[0]) {
        match percent_decode(s.skip(1)) {
            Some(rest) => Some(seq![(s[0] as u32) as u8] + rest),
            None => None,
        }
    } else {
        None
    }
}

/// Encoding a byte string unit by unit from the front.
proof fn lemma_encode_bytes_front(bs: Seq<u8>)
    requires
        bs.len() > 0,
    ensures
        encode_bytes(bs) == encode_byte(bs[0]) + encode_bytes(bs.drop_first()),
    decreases bs.len(),
{
    if bs.len() == 1 {
        assert(bs.drop_last() =~= Seq::<u8>::empty());
        assert(bs.drop_first() =~= Seq::<u8>::empty());
        assert(encode_bytes(bs.drop_last()) =~= Seq::<char>::empty());
        assert(bs.last() == bs[0]);
        assert(encode_bytes(bs.drop_first()) =~= Seq::<char>::empty());
        assert(encode_bytes(bs) =~= encode_byte(bs[0]) + encode_bytes(bs.drop_first()));
    } else {
        let init = bs.drop_last();
        lemma_encode_bytes_front(init);
        assert(init.drop_first() =~= bs.drop_first().drop_last());
        assert(bs.drop_first().last() == bs.last());
        assert(encode_bytes(bs.drop_first()) == encode_bytes(bs.drop_first().drop_last())
            + encode_byte(bs.drop_first().last()));
        assert(encode_bytes(bs) =~= encode_byte(bs[0]) + encode_bytes(bs.drop_first()));
    }
}

/// One encoded byte, followed by anything, decodes to that byte followed by
/// what the rest decodes to.
proof fn lemma_decode_unit(b: u8, rest: Seq<char>)
    ensures
        percent_decode(encode_byte(b) + rest) == match percent_decode(rest) {
            Some(r) => Some(seq![b] + r),
            None => None,
        },
{
    let s = encode_byte(b) + rest;
    if unreserved(b) {
        assert(s[0] == (b as u32) as char);
        assert(s.skip(1) =~= rest);
        assert(((b as u32) as char) as u32 == b as u32);
    } else {
        let hi = b / 16;
        let lo = b % 16;
        assert(s[0] == '%');
        assert(s[1] == hex_upper(hi));
        assert(s[2] == hex_upper(lo));
        assert(s.skip(3) =~= rest);
        assert(hex_value(hex_upper(hi)) == Some(hi as int));
        assert(hex_value(hex_upper(lo)) == Some(lo as int));
        assert((hi * 16 + lo) as u8 == b);
    }
}

/// Decoding undoes encoding, a byte string at a time.
proof fn lemma_decode_encoded_bytes(bs: Seq<u8>)
    ensures
        percent_decode(encode_bytes(bs)) == Some(bs),
    decreases bs.len(),
{
    if bs.len() == 0 {
        assert(encode_bytes(bs) =~= Seq::<char>::empty());
    } else {
        lemma_encode_bytes_front(bs);
        lemma_decode_encoded_bytes(bs.drop_first());
        lemma_decode_unit(bs[0], encode_bytes(bs.drop_first()));
        assert(seq![bs[0]] + bs.drop_first() =~= bs);
    }
}

/// A percent-encoded component decodes back to the UTF-8 bytes of the value
/// it encodes: only the RFC 3986 unreserved characters stand for
/// themselves, and every other byte — `+`, `:` and `%` included — is written
/// as `%XX`, so a server reading the component gets the value back.
pub proof fn lemma_encoded_component_decodes_back(value: Seq<char>)
    ensures
        percent_decode(encode_spec(value)) == Some(vstd::utf8::encode_utf8(value)),
{
    lemma_decode_encoded_bytes(vstd::utf8::encode_utf8(value));
}

} // verus!
