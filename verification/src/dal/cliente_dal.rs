//! Storing customers: what a refusal of the database means.

use crate::utils::text::{contains_text, occurs_in};
use vstd::prelude::*;
use vstd::string::*;

verus! {

/// The datum of a new customer that another customer already has.
#[derive(Clone, Copy, Debug, PartialEq, Eq, Structural)]
pub enum DuplicateField {
    Email,
    Cpf,
    Cnpj,
    Telefone,
    /// The database names a constraint that is none of the above.
    Other,
    /// The database names no constraint, and its words name no datum.
    Unnamed,
}

impl DuplicateField {
    /// The words for the customer.
    pub open spec fn text(self) -> Seq<char> {
        match self {
            DuplicateField::Email => "Cliente com email já cadastrado"@,
            DuplicateField::Cpf => "Cliente com CPF já cadastrado"@,
            DuplicateField::Cnpj => "Cliente com CNPJ já cadastrado"@,
            DuplicateField::Telefone => "Cliente com telefone já cadastrado"@,
            DuplicateField::Other => "Cliente já cadastrado com esses dados"@,
            DuplicateField::Unnamed => "Cliente já cadastrado"@,
        }
    }

    /// The words for the customer.
    pub fn message(&self) -> (words: String)
        ensures
            words@ == self.text(),
    {
        let words = match self {
            DuplicateField::Email => "Cliente com email já cadastrado",
            DuplicateField::Cpf => "Cliente com CPF já cadastrado",
            DuplicateField::Cnpj => "Cliente com CNPJ já cadastrado",
            DuplicateField::Telefone => "Cliente com telefone já cadastrado",
            DuplicateField::Other => "Cliente já cadastrado com esses dados",
            DuplicateField::Unnamed => "Cliente já cadastrado",
        };
        String::from_str(words)
    }
}

/// The datum that a uniqueness constraint guards, by the name of the
/// constraint.
pub open spec fn field_of_constraint(constraint: Seq<char>) -> DuplicateField {
    if constraint == "clientes_email_key"@ || constraint == "idx_clientes_email"@ {
        DuplicateField::Email
    } else if constraint == "clientes_cpf_key"@ || constraint == "idx_clientes_cpf"@ {
        DuplicateField::Cpf
    } else if constraint == "clientes_cnpj_key"@ || constraint == "idx_clientes_cnpj"@ {
        DuplicateField::Cnpj
    } else if constraint == "clientes_telefone_key"@ || constraint == "idx_clientes_telefone"@ {
        DuplicateField::Telefone
    } else {
        DuplicateField::Other
    }
}

/// The datum that the words of the database name: the first of e-mail, CPF,
/// CNPJ and telephone whose name stands in them.
pub open spec fn field_of_details(details: Seq<char>) -> DuplicateField {
    if occurs_in("email"@, details) {
        DuplicateField::Email
    } else if occurs_in("cpf"@, details) {
        DuplicateField::Cpf
    } else if occurs_in("cnpj"@, details) {
        DuplicateField::Cnpj
    } else if occurs_in("telefone"@, details) {
        DuplicateField::Telefone
    } else {
        DuplicateField::Unnamed
    }
}

/// The datum at fault when the database refuses a customer as a duplicate:
/// it goes by the constraint where the database names one, by its words
/// otherwise.
pub open spec fn duplicate_of(constraint: Option<Seq<char>>, details: Seq<char>) -> DuplicateField {
    match constraint {
        Some(name) => field_of_constraint(name),
        None => field_of_details(details),
    }
}

/// Tells whether `text` is the text `name`.
fn is_named(text: &str, name: &str) -> (same: bool)
    ensures
        same == (text@ == name@),
{
    String::from_str(text) == String::from_str(name)
}

/// The store of customers.
pub struct ClienteDal;

impl ClienteDal {
    /// Tells which datum made the database refuse a customer as a duplicate.
    pub fn duplicate_field(constraint: Option<&str>, details: &str) -> (field: DuplicateField)
        ensures
            field == duplicate_of(
                match constraint {
                    Some(name) => Some(name@),
                    None => None,
                },
                details@,
            ),
    {
        match constraint {
            Some(name) => {
                if is_named(name, "clientes_email_key") || is_named(name, "idx_clientes_email") {
                    DuplicateField::Email
                } else if is_named(name, "clientes_cpf_key") || is_named(name, "idx_clientes_cpf") {
                    DuplicateField::Cpf
                } else if is_named(name, "clientes_cnpj_key") || is_named(
                    name,
                    "idx_clientes_cnpj",
                ) {
                    DuplicateField::Cnpj
                } else if is_named(name, "clientes_telefone_key") || is_named(
                    name,
                    "idx_clientes_telefone",
                ) {
                    DuplicateField::Telefone
                } else {
                    DuplicateField::Other
                }
            },
            None => {
                if contains_text(details, "email") {
                    DuplicateField::Email
                } else if contains_text(details, "cpf") {
                    DuplicateField::Cpf
                } else if contains_text(details, "cnpj") {
                    DuplicateField::Cnpj
                } else if contains_text(details, "telefone") {
                    DuplicateField::Telefone
                } else {
                    DuplicateField::Unnamed
                }
            },
        }
    }
}

} // verus!
