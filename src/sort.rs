//! Sorting parameter shared by list endpoints.
use vstd::prelude::*;
use vstd::string::StringExecFns;

verus! {

/// Direction of a sort.
#[derive(Clone, Copy, Debug, PartialEq, Eq, Structural)]
pub enum Ordering {
    Ascending,
    Descending,
}

/// A field to sort by and its direction, or nothing: an empty sort is left
/// out of the request altogether.
pub struct Sort {
    pub by: Option<(String, Ordering)>,
}

/// The token that ends a sort parameter: `1` ascending, `-1` descending.
pub open spec fn direction_text(o: Ordering) -> Seq<char> {
    match o {
        Ordering::Ascending => ":1"@,
        Ordering::Descending => ":-1"@,
    }
}

/// The value of the `sort` parameter, `field:1` or `field:-1`; none for an
/// empty sort.
pub open spec fn sort_value(s: Sort) -> Option<Seq<char>> {
    match s.by {
        Some((field, o)) => Some(field@ + direction_text(o)),
        None => None,
    }
}

impl Sort {
    /// An empty sort.
    pub fn new() -> (r: Sort)
        ensures
            r.by is None,
    {
        Sort { by: None }
    }

    /// Sorts by `field` in direction `ordering`, replacing any earlier choice.
    pub fn sort(&mut self, field: &str, ordering: Ordering) -> (r: &mut Self)
        ensures
            r.by matches Some((f, o)) && f@ == field@ && o == ordering,
            *final(self) == *final(r),
    {
        self.by = Some((String::from_str(field), ordering));
        self
    }

    /// Whether no sort was set.
    pub fn is_empty(&self) -> (r: bool)
        ensures
            r == (self.by is None),
    {
        self.by.is_none()
    }

    /// The value of the `sort` query parameter, if any.
    pub fn to_value(&self) -> (r: Option<String>)
        ensures
            r is None <==> sort_value(*self) is None,
            r matches Some(v) ==> sort_value(*self) == Some(v@),
    {
        match &self.by {
            None => None,
            Some((field, o)) => {
                let suffix = match o {
                    Ordering::Ascending => ":1",
                    Ordering::Descending => ":-1",
                };
                Some(field.clone().concat(suffix))
            },
        }
    }
}

impl Default for Sort {
    fn default() -> (r: Sort)
        ensures
            r.by is None,
    {
        Sort::new()
    }
}

} // verus!
