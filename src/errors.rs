use vstd::prelude::*;
use crate::text::{concat3, decimal, decimal_string};

verus! {

/// A field that an upstream response was expected to hold is missing.
#[derive(Debug)]
pub struct MissingFieldError {
    field_name: String,
}

impl View for MissingFieldError {
    type V = Seq<char>;

    /// The name of the missing field.
    closed spec fn view(&self) -> Seq<char> {
        self.field_name@
    }
}

impl MissingFieldError {
    pub fn new(field_name: String) -> (r: MissingFieldError)
        ensures
            r@ == field_name@,
    {
        MissingFieldError { field_name }
    }

    /// The name of the missing field.
    pub fn field_name(&self) -> (r: &String)
        ensures
            r@ == self@,
    {
        &self.field_name
    }

    /// The text shown to an operator: `Field '<name>' is missing`.
    pub fn message(&self) -> (r: String)
        ensures
            r@ == "Field '"@ + self@ + "' is missing"@,
    {
        concat3("Field '", self.field_name.as_str(), "' is missing")
    }
}

/// What an [`AurRequestError`] records: the package and the HTTP status.
pub struct AurRequestErrorView {
    pub package: Seq<char>,
    pub status_code: u16,
}

/// A request to the AUR for a package was answered with an error status.
#[derive(Debug)]
pub struct AurRequestError {
    package: String,
    status_code: u16,
}

impl View for AurRequestError {
    type V = AurRequestErrorView;

    closed spec fn view(&self) -> AurRequestErrorView {
        AurRequestErrorView { package: self.package@, status_code: self.status_code }
    }
}

impl AurRequestError {
    pub fn new(package: String, status_code: u16) -> (r: AurRequestError)
        ensures
            r@.package == package@,
            r@.status_code == status_code,
    {
        AurRequestError { package, status_code }
    }

    /// The text shown to an operator:
    /// `Aur request for '<package>' failed with code <status>`.
    pub fn message(&self) -> (r: String)
        ensures
            r@ == "Aur request for '"@ + self@.package + "' failed with code "@ + decimal(
                self@.status_code as nat,
            ),
    {
        let mut s = concat3("Aur request for '", self.package.as_str(), "' failed with code ");
        let code = decimal_string(self.status_code as u64);
        s.append(code.as_str());
        s
    }
}

} // verus!
