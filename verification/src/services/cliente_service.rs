//! Registration and sign-in of customers: what is checked, in which order,
//! and what is stored.

use crate::configs::auth::AuthConfig;
use crate::models::cliente::{
    new_cliente_of, CreateClientePayload, CreateClientePayloadView, NewCliente,
};
use crate::models::login::Claims;
use crate::utils::clock::utc_now_seconds;
use crate::utils::hash_password::{compare_passwords, hash_password, password_check};
use crate::utils::identifier::{fresh_identifier, is_identifier};
use crate::utils::text::{chars_of, is_email, is_valid_email, lowercased, to_lowercase};
use crate::validations::cliente_validations::{
    cnpj_verdict, consistency_verdict, cpf_verdict, data_nascimento_verdict, ie_verdict,
    senha_verdict, sexo_verdict, telefone_verdict, tipo_pessoa_verdict, validate_cnpj,
    validate_cpf, validate_data_nascimento, validate_ie, validate_senha_forte, validate_sexo,
    validate_telefone, validate_tipo_pessoa, validate_tipo_pessoa_consistency, ValidationFailure,
};
use vstd::prelude::*;

verus! {

/// The longest name, in characters.
pub const MAX_NAME_LENGTH: usize = 60;

/// What a customer submits to sign in.
pub struct LoginPayload {
    pub email: String,
    pub senha: String,
}

/// Why a customer was not registered.
pub enum RegistrationError {
    /// The data breaks these rules.
    Invalid { failures: Vec<ValidationFailure> },
    /// The password could not be hashed.
    PasswordHash,
}

/// Why a customer was not signed in.
#[derive(Clone, Copy, Debug, PartialEq, Eq, Structural)]
pub enum LoginError {
    /// The password is not the customer's.
    WrongPassword,
    /// The stored hash could not be compared with.
    Unverifiable,
}

/// The failure of a verdict, if it is one.
pub open spec fn failure_of(verdict: Result<(), ValidationFailure>) -> Seq<ValidationFailure> {
    match verdict {
        Ok(()) => Seq::empty(),
        Err(f) => seq![f],
    }
}

/// The failure of an optional field: a field that is not there breaks no
/// rule.
pub open spec fn optional_failure(verdict: Option<Result<(), ValidationFailure>>) -> Seq<
    ValidationFailure,
> {
    match verdict {
        Some(v) => failure_of(v),
        None => Seq::empty(),
    }
}

/// What the rule on names says of `text`: from one to sixty characters.
pub open spec fn nome_verdict(text: Seq<char>) -> Result<(), ValidationFailure> {
    if 1 <= text.len() <= MAX_NAME_LENGTH {
        Ok(())
    } else {
        Err(ValidationFailure::Nome)
    }
}

/// What the rule on company names says of `text`: sixty characters at most.
pub open spec fn razao_social_verdict(text: Seq<char>) -> Result<(), ValidationFailure> {
    if text.len() <= MAX_NAME_LENGTH {
        Ok(())
    } else {
        Err(ValidationFailure::RazaoSocial)
    }
}

/// What the rule on e-mail addresses says of `text`.
pub open spec fn email_verdict(text: Seq<char>) -> Result<(), ValidationFailure> {
    if is_email(text) {
        Ok(())
    } else {
        Err(ValidationFailure::Email)
    }
}

/// The rules that the fields of `payload` break, field by field in the order
/// of the fields; the e-mail address is checked in lower case.
pub open spec fn field_failures(payload: CreateClientePayloadView) -> Seq<ValidationFailure> {
    failure_of(tipo_pessoa_verdict(payload.tipo_pessoa)) + optional_failure(
        match payload.cpf {
            Some(t) => Some(cpf_verdict(t)),
            None => None,
        },
    ) + optional_failure(
        match payload.cnpj {
            Some(t) => Some(cnpj_verdict(t)),
            None => None,
        },
    ) + failure_of(nome_verdict(payload.nome)) + optional_failure(
        match payload.ie {
            Some(t) => Some(ie_verdict(t)),
            None => None,
        },
    ) + optional_failure(
        match payload.razao_social {
            Some(t) => Some(razao_social_verdict(t)),
            None => None,
        },
    ) + failure_of(data_nascimento_verdict(payload.data_nascimento)) + failure_of(
        sexo_verdict(payload.sexo),
    ) + failure_of(email_verdict(lowercased(payload.email))) + failure_of(
        telefone_verdict(payload.telefone),
    ) + failure_of(senha_verdict(payload.senha))
}

/// The rules that keep `payload` from being registered: the two passwords
/// must be the same; then every field must meet its rule; then the documents
/// must fit the kind of person.
pub open spec fn registration_failures(payload: CreateClientePayloadView) -> Seq<
    ValidationFailure,
> {
    if payload.senha != payload.confirmar_senha {
        seq![ValidationFailure::SenhasDiferentes]
    } else if field_failures(payload).len() > 0 {
        field_failures(payload)
    } else {
        failure_of(consistency_verdict(payload))
    }
}

/// The rules that the fields of a sign-in break: the e-mail address must
/// have the form of one, and the password must not be empty.
pub open spec fn login_failures(email: Seq<char>, senha: Seq<char>) -> Seq<ValidationFailure> {
    failure_of(email_verdict(email)) + failure_of(
        if senha.len() >= 1 {
            Ok(())
        } else {
            Err(ValidationFailure::SenhaObrigatoria)
        },
    )
}

/// Adds the failure of `verdict`, if it is one, to `failures`.
fn note(failures: &mut Vec<ValidationFailure>, verdict: Result<(), ValidationFailure>)
    ensures
        final(failures)@ == old(failures)@ + failure_of(verdict),
{
    match verdict {
        Ok(()) => {
            assert(failures@ =~= old(failures)@ + failure_of(verdict));
        },
        Err(f) => {
            failures.push(f);
            assert(failures@ =~= old(failures)@ + failure_of(verdict));
        },
    }
}

/// Checks an e-mail address.
pub fn validate_email(email: &str) -> (verdict: Result<(), ValidationFailure>)
    ensures
        verdict == email_verdict(email@),
{
    if is_valid_email(email) {
        Ok(())
    } else {
        Err(ValidationFailure::Email)
    }
}

/// Checks a name.
pub fn validate_nome(nome: &str) -> (verdict: Result<(), ValidationFailure>)
    ensures
        verdict == nome_verdict(nome@),
{
    let length = chars_of(nome).len();
    if 1 <= length && length <= MAX_NAME_LENGTH {
        Ok(())
    } else {
        Err(ValidationFailure::Nome)
    }
}

/// Checks a company name.
pub fn validate_razao_social(razao_social: &str) -> (verdict: Result<(), ValidationFailure>)
    ensures
        verdict == razao_social_verdict(razao_social@),
{
    if chars_of(razao_social).len() <= MAX_NAME_LENGTH {
        Ok(())
    } else {
        Err(ValidationFailure::RazaoSocial)
    }
}

/// Registration and sign-in of customers.
pub struct ClienteService;

impl ClienteService {
    /// Checks every field of `payload` against its rule.
    pub fn validate(payload: &CreateClientePayload) -> (failures: Vec<ValidationFailure>)
        ensures
            failures@ == field_failures(payload@),
    {
        let mut failures: Vec<ValidationFailure> = Vec::new();
        assert(failures@ =~= Seq::empty());
        note(&mut failures, validate_tipo_pessoa(payload.tipo_pessoa.as_str()));
        match &payload.cpf {
            Some(t) => note(&mut failures, validate_cpf(t.as_str())),
            None => {},
        }
        match &payload.cnpj {
            Some(t) => note(&mut failures, validate_cnpj(t.as_str())),
            None => {},
        }
        note(&mut failures, validate_nome(payload.nome.as_str()));
        match &payload.ie {
            Some(t) => note(&mut failures, validate_ie(t.as_str())),
            None => {},
        }
        match &payload.razao_social {
            Some(t) => note(&mut failures, validate_razao_social(t.as_str())),
            None => {},
        }
        note(&mut failures, validate_data_nascimento(payload.data_nascimento.as_str()));
        note(&mut failures, validate_sexo(payload.sexo.as_str()));
        let email = to_lowercase(payload.email.as_str());
        note(&mut failures, validate_email(email.as_str()));
        note(&mut failures, validate_telefone(payload.telefone.as_str()));
        note(&mut failures, validate_senha_forte(payload.senha.as_str()));
        assert(failures@ =~= field_failures(payload@));
        failures
    }

    /// Checks whether `payload` may be registered.
    pub fn check(payload: &CreateClientePayload) -> (failures: Vec<ValidationFailure>)
        ensures
            failures@ == registration_failures(payload@),
    {
        if payload.senha != payload.confirmar_senha {
            let mut failures: Vec<ValidationFailure> = Vec::new();
            failures.push(ValidationFailure::SenhasDiferentes);
            assert(failures@ =~= seq![ValidationFailure::SenhasDiferentes]);
            return failures;
        }
        let failures = Self::validate(payload);
        if failures.len() > 0 {
            return failures;
        }
        let mut failures: Vec<ValidationFailure> = Vec::new();
        note(&mut failures, validate_tipo_pessoa_consistency(payload));
        assert(failures@ =~= failure_of(consistency_verdict(payload@)));
        failures
    }

    /// Prepares the registration of a customer: checks `payload`, hashes the
    /// password and draws an identifier. The identifier and the hash are not
    /// determined; whether the customer is accepted is, and so is everything
    /// else of what is to be stored.
    pub fn create(payload: CreateClientePayload) -> (prepared: Result<
        NewCliente,
        RegistrationError,
    >)
        ensures
            match prepared {
                Ok(new) => {
                    &&& registration_failures(payload@).len() == 0
                    &&& new@ == new_cliente_of(payload@, new.id@, new.senha@)
                    &&& is_identifier(new.id@)
                },
                Err(RegistrationError::Invalid { failures }) => {
                    &&& failures@ == registration_failures(payload@)
                    &&& failures.len() > 0
                },
                Err(RegistrationError::PasswordHash) => registration_failures(payload@).len() == 0,
            },
    {
        let failures = Self::check(&payload);
        if failures.len() > 0 {
            return Err(RegistrationError::Invalid { failures });
        }
        match hash_password(payload.senha.as_str()) {
            Err(_) => Err(RegistrationError::PasswordHash),
            Ok(hashed) => Ok(NewCliente::from_payload(payload, fresh_identifier(), hashed)),
        }
    }

    /// Checks a sign-in and gives the e-mail address under which to look the
    /// customer up: the one submitted, in lower case.
    pub fn login(payload: &LoginPayload) -> (lookup: Result<String, Vec<ValidationFailure>>)
        ensures
            match lookup {
                Ok(email) => login_failures(payload.email@, payload.senha@).len() == 0 && email@
                    == lowercased(payload.email@),
                Err(failures) => failures@ == login_failures(payload.email@, payload.senha@)
                    && failures.len() > 0,
            },
    {
        let mut failures: Vec<ValidationFailure> = Vec::new();
        assert(failures@ =~= Seq::empty());
        note(&mut failures, validate_email(payload.email.as_str()));
        let senha = if chars_of(payload.senha.as_str()).len() >= 1 {
            Ok(())
        } else {
            Err(ValidationFailure::SenhaObrigatoria)
        };
        note(&mut failures, senha);
        assert(failures@ =~= login_failures(payload.email@, payload.senha@));
        if failures.len() > 0 {
            Err(failures)
        } else {
            Ok(to_lowercase(payload.email.as_str()))
        }
    }

    /// Decides a sign-in once the customer is found: the password submitted
    /// must be the one that `stored_hash` was made from.
    pub fn execute_login(payload: &LoginPayload, stored_hash: &str) -> (outcome: Result<
        (),
        LoginError,
    >)
        ensures
            outcome == match password_check(payload.senha@, stored_hash@) {
                Some(true) => Ok::<(), LoginError>(()),
                Some(false) => Err::<(), LoginError>(LoginError::WrongPassword),
                None => Err::<(), LoginError>(LoginError::Unverifiable),
            },
    {
        match compare_passwords(payload.senha.as_str(), stored_hash) {
            Ok(true) => Ok(()),
            Ok(false) => Err(LoginError::WrongPassword),
            Err(_) => Err(LoginError::Unverifiable),
        }
    }

    /// The claims of a token issued now for the customer whose data is
    /// `cliente`: they are the claims of a token issued at some instant and
    /// valid for the lifetime that `config` sets, so that the token carries
    /// the data of the customer unchanged and expires that lifetime after
    /// its issue. Which instant is now is not determined, and with it whether
    /// there are such claims.
    pub fn claims_for(cliente: String, config: &AuthConfig) -> (claims: Option<Claims>)
        ensures
            exists|issued_at: i64| claims == #[trigger] Claims::issued(
                cliente,
                issued_at,
                config.expires_in,
            ),
            claims matches Some(c) ==> c.cliente == cliente && i64::MIN <= c.exp
                - config.expires_in <= i64::MAX,
    {
        let issued_at = utc_now_seconds();
        let claims = Claims::new(cliente, issued_at, config.expires_in);
        assert(claims == Claims::issued(cliente, issued_at, config.expires_in));
        claims
    }
}

} // verus!
