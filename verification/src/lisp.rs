//! The Lisp values that the widget and style readers take apart, and the
//! accessors they use on them (`car`, `cdr`, reading a symbol's name or a
//! string, walking the elements of a list).
use vstd::prelude::*;

verus! {

/// A Lisp value, as plain data.
///
/// `Nil` and `T` are the two constant symbols; `Symbol` is any other
/// symbol, by name. `Cons` is a cell with its car and cdr. Every value
/// that the readers only ever reject (floats, functions, host values)
/// is `Other`.
#[derive(Debug)]
pub enum LispValue {
    Nil,
    T,
    Symbol(String),
    Str(String),
    Int(i64),
    Cons(Box<LispValue>, Box<LispValue>),
    Other,
}

/// What went wrong while reading a widget's arguments.
///
/// The first three carry the value that had the wrong type; the last two
/// carry the name that was not recognised.
#[derive(Debug)]
pub enum LispError {
    NotASymbol(LispValue),
    NotAString(LispValue),
    NotAList(LispValue),
    UnknownColor(String),
    UnknownModifier(String),
}

/// The elements that a walk down the cdrs of `v` meets: the car of each
/// cell, up to the first cdr that is not a cell. A value that is not a
/// cell has none.
pub open spec fn list_items(v: LispValue) -> Seq<LispValue>
    decreases v,
{
    match v {
        LispValue::Cons(a, d) => seq![*a] + list_items(*d),
        _ => Seq::empty(),
    }
}

/// `car`: the first half of a cell, `nil` for `nil`, an error otherwise.
pub open spec fn spec_car(v: LispValue) -> Result<LispValue, LispError> {
    match v {
        LispValue::Cons(a, _) => Ok(*a),
        LispValue::Nil => Ok(LispValue::Nil),
        _ => Err(LispError::NotAList(v)),
    }
}

/// `cdr`: the second half of a cell, `nil` for `nil`, an error otherwise.
pub open spec fn spec_cdr(v: LispValue) -> Result<LispValue, LispError> {
    match v {
        LispValue::Cons(_, d) => Ok(*d),
        LispValue::Nil => Ok(LispValue::Nil),
        _ => Err(LispError::NotAList(v)),
    }
}

/// The name of a symbol other than `nil` and `t`.
pub open spec fn spec_as_symbol(v: LispValue) -> Result<String, LispError> {
    match v {
        LispValue::Symbol(s) => Ok(s),
        _ => Err(LispError::NotASymbol(v)),
    }
}

/// The text of a string.
pub open spec fn spec_as_string(v: LispValue) -> Result<String, LispError> {
    match v {
        LispValue::Str(s) => Ok(s),
        _ => Err(LispError::NotAString(v)),
    }
}

/// The name of a symbol, or failing that the text of a string; the
/// error is the one for a value that is not a string.
pub open spec fn spec_name_of(v: LispValue) -> Result<String, LispError> {
    match v {
        LispValue::Symbol(s) => Ok(s),
        _ => spec_as_string(v),
    }
}

/// Runs `step` over `xs` from the front, starting from `init`, and
/// stops at the first error.
pub open spec fn try_fold<A, T>(
    xs: Seq<T>,
    init: A,
    step: spec_fn(A, T) -> Result<A, LispError>,
) -> Result<A, LispError>
    decreases xs.len(),
{
    if xs.len() == 0 {
        Ok(init)
    } else {
        match try_fold(xs.drop_last(), init, step) {
            Ok(a) => step(a, xs.last()),
            Err(e) => Err(e),
        }
    }
}

/// One more element of a fold: folding the first `i + 1` elements is a
/// step from folding the first `i`.
pub proof fn lemma_try_fold_next<A, T>(
    xs: Seq<T>,
    init: A,
    step: spec_fn(A, T) -> Result<A, LispError>,
    i: int,
)
    requires
        0 <= i < xs.len(),
    ensures
        try_fold(xs.take(i + 1), init, step) == match try_fold(xs.take(i), init, step) {
            Ok(a) => step(a, xs[i]),
            Err(e) => Err(e),
        },
{
    assert(xs.take(i + 1).drop_last() =~= xs.take(i));
}

/// Once a fold has failed on a prefix, it fails with that error on the
/// whole sequence.
pub proof fn lemma_try_fold_stops<A, T>(
    xs: Seq<T>,
    init: A,
    step: spec_fn(A, T) -> Result<A, LispError>,
    i: int,
)
    requires
        0 <= i <= xs.len(),
        try_fold(xs.take(i), init, step) is Err,
    ensures
        try_fold(xs, init, step) == try_fold(xs.take(i), init, step),
    decreases xs.len(),
{
    if i == xs.len() {
        assert(xs.take(i) =~= xs);
    } else {
        assert(xs.drop_last().take(i) =~= xs.take(i));
        lemma_try_fold_stops(xs.drop_last(), init, step, i);
    }
}

/// A fold over the whole of a sequence is a fold over all of its
/// elements taken as a prefix.
pub proof fn lemma_try_fold_all<A, T>(
    xs: Seq<T>,
    init: A,
    step: spec_fn(A, T) -> Result<A, LispError>,
)
    ensures
        try_fold(xs.take(xs.len() as int), init, step) == try_fold(xs, init, step),
{
    assert(xs.take(xs.len() as int) =~= xs);
}

impl LispValue {
    /// A copy of this value.
    pub fn duplicate(&self) -> (r: LispValue)
        ensures
            r == *self,
        decreases self,
    {
        match self {
            LispValue::Nil => LispValue::Nil,
            LispValue::T => LispValue::T,
            LispValue::Symbol(s) => LispValue::Symbol(s.clone()),
            LispValue::Str(s) => LispValue::Str(s.clone()),
            LispValue::Int(i) => LispValue::Int(*i),
            LispValue::Cons(a, d) => {
                let a2 = (**a).duplicate();
                let d2 = (**d).duplicate();
                LispValue::Cons(Box::new(a2), Box::new(d2))
            },
            LispValue::Other => LispValue::Other,
        }
    }

    /// Whether this value is `nil`.
    pub fn is_nil(&self) -> (r: bool)
        ensures
            r == (*self is Nil),
    {
        match self {
            LispValue::Nil => true,
            _ => false,
        }
    }

    /// The car of this value.
    pub fn car(&self) -> (r: Result<LispValue, LispError>)
        ensures
            r == spec_car(*self),
    {
        match self {
            LispValue::Cons(a, _) => Ok((**a).duplicate()),
            LispValue::Nil => Ok(LispValue::Nil),
            _ => Err(LispError::NotAList(self.duplicate())),
        }
    }

    /// The cdr of this value.
    pub fn cdr(&self) -> (r: Result<LispValue, LispError>)
        ensures
            r == spec_cdr(*self),
    {
        match self {
            LispValue::Cons(_, d) => Ok((**d).duplicate()),
            LispValue::Nil => Ok(LispValue::Nil),
            _ => Err(LispError::NotAList(self.duplicate())),
        }
    }

    /// The name of this value, which must be a symbol other than `nil`
    /// and `t`.
    pub fn as_symbol(&self) -> (r: Result<String, LispError>)
        ensures
            r == spec_as_symbol(*self),
    {
        match self {
            LispValue::Symbol(s) => Ok(s.clone()),
            _ => Err(LispError::NotASymbol(self.duplicate())),
        }
    }

    /// The text of this value, which must be a string.
    pub fn as_string(&self) -> (r: Result<String, LispError>)
        ensures
            r == spec_as_string(*self),
    {
        match self {
            LispValue::Str(s) => Ok(s.clone()),
            _ => Err(LispError::NotAString(self.duplicate())),
        }
    }

    /// The name of a symbol, or the text of a string.
    pub fn name_of(&self) -> (r: Result<String, LispError>)
        ensures
            r == spec_name_of(*self),
    {
        match self {
            LispValue::Symbol(s) => Ok(s.clone()),
            _ => self.as_string(),
        }
    }

    /// The elements of this value as a list; see `list_items`.
    pub fn items(&self) -> (r: Vec<LispValue>)
        ensures
            r@ == list_items(*self),
    {
        let mut out: Vec<LispValue> = Vec::new();
        let mut cur: &LispValue = self;
        loop
            invariant
                list_items(*self) == out@ + list_items(*cur),
            ensures
                out@ == list_items(*self),
            decreases list_items(*cur).len(),
        {
            match cur {
                LispValue::Cons(a, d) => {
                    out.push((**a).duplicate());
                    proof {
                        assert(out@ + list_items(**d) =~= (out@.drop_last() + list_items(*cur)));
                    }
                    cur = &**d;
                },
                _ => {
                    assert(out@ + list_items(*cur) =~= out@);
                    break ;
                },
            }
        }
        out
    }
}

} // verus!
