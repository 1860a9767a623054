use vstd::prelude::*;
use vstd::string::StringExecFns;
use crate::errors::{ForestError, ForestResult};
use vstd::utf8::encode_utf8;
use crate::utils::{decimal, decimal_text, signed_decimal, signed_decimal_text};

verus! {

/// A check on values of type `T`.
pub trait Validator<T> {
    /// The outcome of the check on `value`: success, or the reason it fails.
    spec fn verdict(&self, value: T) -> Result<(), Seq<char>>;

    /// Succeeds exactly on the values that pass; a failure is a validation
    /// error that carries the reason.
    fn validate(&self, value: &T) -> (r: ForestResult<()>)
        ensures
            r is Ok <==> self.verdict(*value) is Ok,
            r is Err ==> r->Err_0 is ValidationError,
            r is Err ==> r->Err_0.reason() == self.verdict(*value)->Err_0,
    ;
}

fn validation_error(prefix: &str, detail: String) -> (r: ForestError)
    ensures
        r is ValidationError,
        r.reason() == prefix@ + detail@,
{
    let mut text = String::from_str(prefix);
    text.append(detail.as_str());
    ForestError::ValidationError(text)
}

/// A check that every value passes.
#[derive(Debug, Clone, Copy, PartialEq, Eq)]
pub struct AnyValue;

impl<T> Validator<T> for AnyValue {
    open spec fn verdict(&self, value: T) -> Result<(), Seq<char>> {
        Ok(())
    }

    fn validate(&self, value: &T) -> (r: ForestResult<()>) {
        Ok(())
    }
}

/// Bounds, each optional and inclusive, on an integer.
#[derive(Debug, Clone, Copy, PartialEq, Eq)]
pub struct NumberValidator {
    pub min: Option<i64>,
    pub max: Option<i64>,
}

impl NumberValidator {
    /// No bounds.
    pub fn new() -> (r: Self)
        ensures
            r.min is None && r.max is None,
    {
        NumberValidator { min: None, max: None }
    }

    pub fn with_min(self, value: i64) -> (r: Self)
        ensures
            r.min == Some(value) && r.max == self.max,
    {
        NumberValidator { min: Some(value), ..self }
    }

    pub fn with_max(self, value: i64) -> (r: Self)
        ensures
            r.max == Some(value) && r.min == self.min,
    {
        NumberValidator { max: Some(value), ..self }
    }
}

impl Validator<i64> for NumberValidator {
    /// The lower bound is checked first.
    open spec fn verdict(&self, value: i64) -> Result<(), Seq<char>> {
        if self.min is Some && value < self.min->0 {
            Err("Value must be at least "@ + signed_decimal(self.min->0 as int))
        } else if self.max is Some && value > self.max->0 {
            Err("Value must be at most "@ + signed_decimal(self.max->0 as int))
        } else {
            Ok(())
        }
    }

    fn validate(&self, value: &i64) -> (r: ForestResult<()>) {
        if let Some(min) = self.min {
            if *value < min {
                return Err(validation_error("Value must be at least ", signed_decimal_text(min)));
            }
        }
        if let Some(max) = self.max {
            if *value > max {
                return Err(validation_error("Value must be at most ", signed_decimal_text(max)));
            }
        }
        Ok(())
    }
}

/// Bounds, each optional and inclusive, on the length of a list, and an
/// optional check on each of its items.
#[derive(Debug, Clone, Copy, PartialEq, Eq)]
pub struct ArrayValidator<V> {
    pub min_length: Option<usize>,
    pub max_length: Option<usize>,
    pub item_validator: Option<V>,
}

impl ArrayValidator<AnyValue> {
    /// No bounds and no check on the items.
    pub fn new() -> (r: Self)
        ensures
            r.min_length is None && r.max_length is None && r.item_validator is None,
    {
        ArrayValidator { min_length: None, max_length: None, item_validator: None }
    }
}

impl<V> ArrayValidator<V> {
    pub fn with_min_length(self, length: usize) -> (r: Self)
        ensures
            r.min_length == Some(length),
            r.max_length == self.max_length,
            r.item_validator == self.item_validator,
    {
        ArrayValidator { min_length: Some(length), ..self }
    }

    pub fn with_max_length(self, length: usize) -> (r: Self)
        ensures
            r.max_length == Some(length),
            r.min_length == self.min_length,
            r.item_validator == self.item_validator,
    {
        ArrayValidator { max_length: Some(length), ..self }
    }

    /// The same bounds, with `validator` checking each item.
    pub fn with_item_validator<W>(self, validator: W) -> (r: ArrayValidator<W>)
        ensures
            r.item_validator == Some(validator),
            r.min_length == self.min_length,
            r.max_length == self.max_length,
    {
        ArrayValidator {
            min_length: self.min_length,
            max_length: self.max_length,
            item_validator: Some(validator),
        }
    }
}

/// The verdict on the first of `items` that fails `validator`; success when
/// none does.
pub open spec fn items_verdict<T, V: Validator<T>>(validator: V, items: Seq<T>) -> Result<
    (),
    Seq<char>,
>
    decreases items.len(),
{
    if items.len() == 0 {
        Ok(())
    } else {
        match validator.verdict(items[0]) {
            Err(m) => Err(m),
            Ok(()) => items_verdict(validator, items.drop_first()),
        }
    }
}

impl<T, V: Validator<T>> Validator<Vec<T>> for ArrayValidator<V> {
    /// The length bounds are checked first, the lower one before the upper
    /// one; then the items, in order, up to the first that fails.
    open spec fn verdict(&self, value: Vec<T>) -> Result<(), Seq<char>> {
        if self.min_length is Some && value@.len() < self.min_length->0 {
            Err("Array length must be at least "@ + decimal(self.min_length->0 as nat))
        } else if self.max_length is Some && value@.len() > self.max_length->0 {
            Err("Array length must be at most "@ + decimal(self.max_length->0 as nat))
        } else if self.item_validator is None {
            Ok(())
        } else {
            items_verdict(self.item_validator->0, value@)
        }
    }

    fn validate(&self, value: &Vec<T>) -> (r: ForestResult<()>) {
        if let Some(min) = self.min_length {
            if value.len() < min {
                return Err(validation_error("Array length must be at least ", decimal_text(min as u128)));
            }
        }
        if let Some(max) = self.max_length {
            if value.len() > max {
                return Err(validation_error("Array length must be at most ", decimal_text(max as u128)));
            }
        }
        if let Some(validator) = &self.item_validator {
            let mut i: usize = 0;
            assert(value@.subrange(0, value@.len() as int) =~= value@);
            while i < value.len()
                invariant
                    i <= value@.len(),
                    self.item_validator == Some(*validator),
                    !(self.min_length is Some && value@.len() < self.min_length->0),
                    !(self.max_length is Some && value@.len() > self.max_length->0),
                    items_verdict(*validator, value@) == items_verdict(
                        *validator,
                        value@.subrange(i as int, value@.len() as int),
                    ),
                decreases value@.len() - i,
            {
                let ghost rest = value@.subrange(i as int, value@.len() as int);
                assert(rest.len() > 0);
                assert(rest[0] == value@[i as int]);
                assert(rest.drop_first() =~= value@.subrange(i + 1, value@.len() as int));
                match validator.validate(&value[i]) {
                    Ok(()) => {},
                    Err(e) => {
                        assert(items_verdict(*validator, rest) == validator.verdict(rest[0]));
                        return Err(e);
                    },
                }
                i = i + 1;
            }
            assert(value@.subrange(i as int, value@.len() as int) =~= Seq::<T>::empty());
        }
        Ok(())
    }
}


/// Whether the regular expression `pattern` compiles (`None` when it does
/// not) and, when it does, whether it matches somewhere in `text`.
pub uninterp spec fn regex_outcome(pattern: Seq<char>, text: Seq<char>) -> Option<bool>;

/// Relies on regex::Regex::new, which compiles `pattern` or reports an
/// error, and regex::Regex::is_match, which says whether the compiled
/// expression matches somewhere in `text`; both depend on their arguments
/// alone.
#[verifier::external_body]
fn pattern_matches(pattern: &str, text: &str) -> (r: Option<bool>)
    ensures
        r == regex_outcome(pattern@, text@),
{
    match regex::Regex::new(pattern) {
        Ok(re) => Some(re.is_match(text)),
        Err(_) => None,
    }
}

/// The length of `s` in bytes, as UTF-8.
pub open spec fn byte_len(s: Seq<char>) -> nat {
    encode_utf8(s).len()
}

/// Bounds, each optional and inclusive, on the length of a string in bytes,
/// and an optional regular expression it must match.
#[derive(Debug, Clone, PartialEq, Eq)]
pub struct StringValidator {
    pub min_length: Option<usize>,
    pub max_length: Option<usize>,
    pub pattern: Option<String>,
}

impl StringValidator {
    /// No bounds and no pattern.
    pub fn new() -> (r: Self)
        ensures
            r.min_length is None && r.max_length is None && r.pattern is None,
    {
        StringValidator { min_length: None, max_length: None, pattern: None }
    }

    pub fn with_min_length(self, length: usize) -> (r: Self)
        ensures
            r.min_length == Some(length),
            r.max_length == self.max_length,
            r.pattern == self.pattern,
    {
        StringValidator { min_length: Some(length), ..self }
    }

    pub fn with_max_length(self, length: usize) -> (r: Self)
        ensures
            r.max_length == Some(length),
            r.min_length == self.min_length,
            r.pattern == self.pattern,
    {
        StringValidator { max_length: Some(length), ..self }
    }

    /// The same bounds, with `pattern` to be matched. A pattern that does
    /// not compile fails every value.
    pub fn with_pattern(self, pattern: &str) -> (r: Self)
        ensures
            r.pattern is Some && r.pattern->0@ == pattern@,
            r.min_length == self.min_length,
            r.max_length == self.max_length,
    {
        StringValidator { pattern: Some(pattern.to_owned()), ..self }
    }
}

impl Validator<String> for StringValidator {
    /// The length bounds are checked first, the lower one before the upper
    /// one; then the pattern.
    open spec fn verdict(&self, value: String) -> Result<(), Seq<char>> {
        if self.min_length is Some && byte_len(value@) < self.min_length->0 {
            Err("String length must be at least "@ + decimal(self.min_length->0 as nat))
        } else if self.max_length is Some && byte_len(value@) > self.max_length->0 {
            Err("String length must be at most "@ + decimal(self.max_length->0 as nat))
        } else if self.pattern is None {
            Ok(())
        } else {
            match regex_outcome(self.pattern->0@, value@) {
                Some(true) => Ok(()),
                Some(false) => Err("String does not match pattern: "@ + self.pattern->0@),
                None => Err("Invalid pattern: "@ + self.pattern->0@),
            }
        }
    }

    fn validate(&self, value: &String) -> (r: ForestResult<()>) {
        let len = value.as_str().as_bytes().len();
        if let Some(min) = self.min_length {
            if len < min {
                return Err(
                    validation_error("String length must be at least ", decimal_text(min as u128)),
                );
            }
        }
        if let Some(max) = self.max_length {
            if len > max {
                return Err(validation_error("String length must be at most ", decimal_text(max as u128)));
            }
        }
        if let Some(pattern) = &self.pattern {
            match pattern_matches(pattern.as_str(), value.as_str()) {
                Some(true) => {},
                Some(false) => {
                    return Err(
                        validation_error("String does not match pattern: ", pattern.clone()),
                    );
                },
                None => {
                    return Err(validation_error("Invalid pattern: ", pattern.clone()));
                },
            }
        }
        Ok(())
    }
}

} // verus!
