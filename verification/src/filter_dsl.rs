//! Shared admin filter DSL: the closed operator/value vocabulary, a
//! per-resource column-kind registry, and the one generic validity check
//! every filterable admin resource (users, orders, system/audit logs) is
//! built on. SQL rendering stays an outer-adapter concern.
use vstd::prelude::*;

use crate::text::{chars_of, push_char};

verus! {

/// Closed operator vocabulary, shared by every filterable resource.
#[derive(Clone, Copy, Debug, Eq, PartialEq, Structural)]
pub enum FilterOperator {
    Eq,
    Neq,
    Like,
    Gt,
    Gte,
    Lt,
    Lte,
    In,
}

/// Closed, already-typed value vocabulary a filter clause can bind.
#[derive(Clone, Debug, Eq, PartialEq)]
pub enum FilterValue {
    Null,
    Boolean(bool),
    Integer(i64),
    Text(String),
    Booleans(Vec<bool>),
    Integers(Vec<i64>),
    Texts(Vec<String>),
}

/// Storage/comparison kind for a filterable column.
#[derive(Clone, Copy, Debug, Eq, PartialEq, Structural)]
pub enum ColumnKind {
    Boolean,
    Integer,
    /// Integer-typed but never `like`-searchable.
    Timestamp,
    Text,
    /// Text compared with the legacy trimmed/lowercased semantics.
    Email,
}

impl ColumnKind {
    pub open spec fn spec_is_textlike(self) -> bool {
        self is Text || self is Email
    }

    pub open spec fn spec_is_numberlike(self) -> bool {
        self is Integer || self is Timestamp
    }

    pub fn is_textlike(self) -> (r: bool)
        ensures
            r == self.spec_is_textlike(),
    {
        matches!(self, Self::Text | Self::Email)
    }

    pub fn is_numberlike(self) -> (r: bool)
        ensures
            r == self.spec_is_numberlike(),
    {
        matches!(self, Self::Integer | Self::Timestamp)
    }

    /// The legal operator/value combinations for a column kind.
    pub open spec fn spec_accepts(self, operator: FilterOperator, value: FilterValue) -> bool {
        match operator {
            FilterOperator::Eq | FilterOperator::Neq => match value {
                FilterValue::Null => true,
                FilterValue::Boolean(_) => self is Boolean,
                FilterValue::Integer(_) => self.spec_is_numberlike(),
                FilterValue::Text(_) => self.spec_is_textlike(),
                _ => false,
            },
            FilterOperator::Like => value is Text && (self.spec_is_textlike() || self is Integer),
            FilterOperator::Gt | FilterOperator::Gte | FilterOperator::Lt | FilterOperator::Lte => {
                value is Integer && self.spec_is_numberlike()
            },
            FilterOperator::In => match value {
                FilterValue::Booleans(values) => values.len() > 0 && self is Boolean,
                FilterValue::Integers(values) => values.len() > 0 && self.spec_is_numberlike(),
                FilterValue::Texts(values) => values.len() > 0 && self.spec_is_textlike(),
                _ => false,
            },
        }
    }

    /// True when `operator`/`value` is a legal combination for this column
    /// kind. Every SQL adapter can trust a clause that passes this check.
    pub fn accepts(self, operator: FilterOperator, value: &FilterValue) -> (r: bool)
        ensures
            r == self.spec_accepts(operator, *value),
    {
        match operator {
            FilterOperator::Eq | FilterOperator::Neq => match value {
                FilterValue::Null => true,
                FilterValue::Boolean(_) => matches!(self, Self::Boolean),
                FilterValue::Integer(_) => self.is_numberlike(),
                FilterValue::Text(_) => self.is_textlike(),
                FilterValue::Booleans(_) | FilterValue::Integers(_) | FilterValue::Texts(_) => {
                    false
                },
            },
            FilterOperator::Like => {
                matches!(value, FilterValue::Text(_)) && (self.is_textlike() || matches!(
                    self,
                    Self::Integer
                ))
            },
            FilterOperator::Gt | FilterOperator::Gte | FilterOperator::Lt | FilterOperator::Lte => {
                matches!(value, FilterValue::Integer(_)) && self.is_numberlike()
            },
            FilterOperator::In => match value {
                FilterValue::Booleans(values) => values.len() > 0 && matches!(self, Self::Boolean),
                FilterValue::Integers(values) => values.len() > 0 && self.is_numberlike(),
                FilterValue::Texts(values) => values.len() > 0 && self.is_textlike(),
                FilterValue::Null | FilterValue::Boolean(_) | FilterValue::Integer(_) => false,
                FilterValue::Text(_) => false,
            },
        }
    }
}

/// A closed field vocabulary for one filterable resource: parses the wire
/// `field` string, reports its canonical name back, and its column kind.
pub trait FilterField: Copy + Eq + Sized {
    spec fn spec_parse(name: Seq<char>) -> Option<Self>;

    spec fn spec_name(self) -> Seq<char>;

    spec fn spec_kind(self) -> ColumnKind;

    fn parse(name: &str) -> (r: Option<Self>)
        ensures
            r == Self::spec_parse(name@),
    ;

    fn name(self) -> (r: &'static str)
        ensures
            r@ == self.spec_name(),
    ;

    fn kind(self) -> (r: ColumnKind)
        ensures
            r == self.spec_kind(),
    ;
}

/// One AND-combined `{field, operator, value}` clause against a whitelisted
/// column, generic over the resource's closed field enum `F`.
#[derive(Clone, Debug, Eq, PartialEq)]
pub struct FilterClause<F> {
    pub field: F,
    pub operator: FilterOperator,
    pub value: FilterValue,
}

#[derive(Clone, Debug, Eq, PartialEq)]
pub struct FilterViolation {
    pub field: &'static str,
    pub message: String,
}

pub open spec fn clause_ok<F: FilterField>(clause: FilterClause<F>) -> bool {
    clause.field.spec_kind().spec_accepts(clause.operator, clause.value)
}

pub open spec fn invalid_combination_message(name: Seq<char>) -> Seq<char> {
    "operator/value combination is invalid for "@ + name
}

/// Validates a closed filter vocabulary before any SQL adapter sees it:
/// the first clause whose operator/value combination its column kind does
/// not accept is reported.
pub fn validate_filters<F: FilterField>(filters: &[FilterClause<F>]) -> (r: Result<
    (),
    FilterViolation,
>)
    ensures
        r is Ok <==> forall|i: int| 0 <= i < filters@.len() ==> clause_ok(#[trigger] filters@[i]),
        r matches Err(v) ==> exists|i: int|
            0 <= i < filters@.len() && !clause_ok(#[trigger] filters@[i]) && (forall|j: int|
                0 <= j < i ==> clause_ok(#[trigger] filters@[j])) && v.field@ == "filter"@
                && v.message@ == invalid_combination_message(filters@[i].field.spec_name()),
{
    let mut i: usize = 0;
    while i < filters.len()
        invariant
            i <= filters@.len(),
            forall|j: int| 0 <= j < i ==> clause_ok(#[trigger] filters@[j]),
        decreases filters@.len() - i,
    {
        let filter = &filters[i];
        if !filter.field.kind().accepts(filter.operator, &filter.value) {
            let mut message = crate::text::to_owned("operator/value combination is invalid for ");
            crate::text::append_str_to(&mut message, filter.field.name());
            return Err(FilterViolation { field: "filter", message });
        }
        i = i + 1;
    }
    Ok(())
}

pub open spec fn is_wildcard(c: char) -> bool {
    c == '%' || c == '_' || c == '\\'
}

/// Backslash-escapes every literal `%`, `_` and `\`.
pub open spec fn escape_wildcards(s: Seq<char>) -> Seq<char>
    decreases s.len(),
{
    if s.len() == 0 {
        Seq::empty()
    } else {
        let rest = escape_wildcards(s.drop_last());
        if is_wildcard(s.last()) {
            rest.push('\\').push(s.last())
        } else {
            rest.push(s.last())
        }
    }
}

/// Appends the escaped form of `v` to `out`.
pub fn push_escaped(out: &mut String, v: &Vec<char>)
    ensures
        final(out)@ == old(out)@ + escape_wildcards(v@),
{
    let mut i: usize = 0;
    while i < v.len()
        invariant
            i <= v.len(),
            out@ == old(out)@ + escape_wildcards(v@.subrange(0, i as int)),
        decreases v.len() - i,
    {
        let c = v[i];
        assert(v@.subrange(0, i + 1).drop_last() =~= v@.subrange(0, i as int));
        if c == '%' || c == '_' || c == '\\' {
            push_char(out, '\\');
        }
        push_char(out, c);
        i = i + 1;
    }
    assert(v@.subrange(0, v@.len() as int) =~= v@);
}

/// Wraps `value` in the shared `%...%` `ILIKE` wildcard escape: literal
/// `%`, `_`, and `\` in `value` are escaped ahead of binding so they match
/// themselves rather than acting as SQL wildcards.
pub fn escape_like_pattern(value: &str) -> (r: String)
    ensures
        r@ == seq!['%'] + escape_wildcards(value@) + seq!['%'],
{
    let v = chars_of(value);
    let mut escaped = String::new();
    push_char(&mut escaped, '%');
    push_escaped(&mut escaped, &v);
    push_char(&mut escaped, '%');
    escaped
}

/// `NULL` is a valid equality or inequality value for a column of any
/// kind.
pub proof fn law_null_equality_is_always_accepted(kind: ColumnKind)
    ensures
        kind.spec_accepts(FilterOperator::Eq, FilterValue::Null),
        kind.spec_accepts(FilterOperator::Neq, FilterValue::Null),
{
}

/// `like` takes a text value, and only on text, e-mail and integer
/// columns.
pub proof fn law_like_is_closed(kind: ColumnKind, value: FilterValue)
    ensures
        kind.spec_accepts(FilterOperator::Like, value) <==> (value is Text && (kind is Text
            || kind is Email || kind is Integer)),
{
}

/// The range operators take an integer value, and only on integer and
/// timestamp columns.
pub proof fn law_range_operators_are_closed(
    kind: ColumnKind,
    operator: FilterOperator,
    value: FilterValue,
)
    requires
        operator is Gt || operator is Gte || operator is Lt || operator is Lte,
    ensures
        kind.spec_accepts(operator, value) <==> (value is Integer && (kind is Integer
            || kind is Timestamp)),
{
}

/// `in` takes a non-empty list whose items match the column kind.
pub proof fn law_in_needs_a_matching_nonempty_list(kind: ColumnKind, value: FilterValue)
    ensures
        kind.spec_accepts(FilterOperator::In, value) <==> match value {
            FilterValue::Booleans(v) => v.len() > 0 && kind is Boolean,
            FilterValue::Integers(v) => v.len() > 0 && (kind is Integer || kind is Timestamp),
            FilterValue::Texts(v) => v.len() > 0 && (kind is Text || kind is Email),
            _ => false,
        },
{
}

/// The literal an escaped `like` pattern body stands for, read from the
/// end: a wildcard character must be the second of an escape pair, any
/// other character stands for itself. A bare wildcard gives none.
pub open spec fn like_literal(p: Seq<char>) -> Option<Seq<char>>
    decreases p.len(),
{
    if p.len() == 0 {
        Some(Seq::empty())
    } else if is_wildcard(p.last()) {
        if p.len() >= 2 && p[p.len() - 2] == '\\' {
            match like_literal(p.take(p.len() - 2)) {
                Some(s) => Some(s.push(p.last())),
                None => None,
            }
        } else {
            None
        }
    } else {
        match like_literal(p.drop_last()) {
            Some(s) => Some(s.push(p.last())),
            None => None,
        }
    }
}

/// Escaping leaves no bare wildcard: the escaped text matches exactly the
/// literal it was made from.
pub proof fn law_escaped_pattern_matches_its_literal(s: Seq<char>)
    ensures
        like_literal(escape_wildcards(s)) == Some(s),
    decreases s.len(),
{
    if s.len() > 0 {
        law_escaped_pattern_matches_its_literal(s.drop_last());
        let rest = escape_wildcards(s.drop_last());
        if is_wildcard(s.last()) {
            let p = rest.push('\\').push(s.last());
            assert(p.take(p.len() - 2) =~= rest);
            assert(s.drop_last().push(s.last()) =~= s);
        } else {
            let p = rest.push(s.last());
            assert(p.drop_last() =~= rest);
            assert(s.drop_last().push(s.last()) =~= s);
        }
    }
}

} // verus!
