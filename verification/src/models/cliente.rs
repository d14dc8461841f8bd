//! Customers as they register.

use crate::models::pedido::optional_text_view;
use crate::utils::text::{lowercased, to_lowercase};
use crate::validations::cliente_validations::{calendar_day, parse_calendar_day};
use vstd::prelude::*;

verus! {

/// What a person or a company submits to register as a customer.
pub struct CreateClientePayload {
    pub tipo_pessoa: String,
    pub cpf: Option<String>,
    pub cnpj: Option<String>,
    pub nome: String,
    pub ie: Option<String>,
    pub razao_social: Option<String>,
    pub data_nascimento: String,
    pub sexo: String,
    pub email: String,
    pub telefone: String,
    pub senha: String,
    pub confirmar_senha: String,
}

/// What a `CreateClientePayload` stands for.
pub ghost struct CreateClientePayloadView {
    pub tipo_pessoa: Seq<char>,
    pub cpf: Option<Seq<char>>,
    pub cnpj: Option<Seq<char>>,
    pub nome: Seq<char>,
    pub ie: Option<Seq<char>>,
    pub razao_social: Option<Seq<char>>,
    pub data_nascimento: Seq<char>,
    pub sexo: Seq<char>,
    pub email: Seq<char>,
    pub telefone: Seq<char>,
    pub senha: Seq<char>,
    pub confirmar_senha: Seq<char>,
}

impl View for CreateClientePayload {
    type V = CreateClientePayloadView;

    open spec fn view(&self) -> CreateClientePayloadView {
        CreateClientePayloadView {
            tipo_pessoa: self.tipo_pessoa@,
            cpf: optional_text_view(self.cpf),
            cnpj: optional_text_view(self.cnpj),
            nome: self.nome@,
            ie: optional_text_view(self.ie),
            razao_social: optional_text_view(self.razao_social),
            data_nascimento: self.data_nascimento@,
            sexo: self.sexo@,
            email: self.email@,
            telefone: self.telefone@,
            senha: self.senha@,
            confirmar_senha: self.confirmar_senha@,
        }
    }
}

/// The day counted for a date of birth that cannot be read: the first of
/// January of 1900, in days from the first day of the year 1.
pub const UNKNOWN_BIRTH_DAY: i32 = 693_596;

/// A customer ready to be stored: the password is hashed, the e-mail address
/// in lower case, the date of birth a day counted from the first day of the
/// year 1.
pub struct NewCliente {
    pub id: String,
    pub tipo_pessoa: String,
    pub cpf: Option<String>,
    pub cnpj: Option<String>,
    pub nome: String,
    pub ie: Option<String>,
    pub razao_social: Option<String>,
    pub data_nascimento: i32,
    pub sexo: String,
    pub email: String,
    pub telefone: String,
    pub senha: String,
}

/// What a `NewCliente` stands for.
pub ghost struct NewClienteView {
    pub id: Seq<char>,
    pub tipo_pessoa: Seq<char>,
    pub cpf: Option<Seq<char>>,
    pub cnpj: Option<Seq<char>>,
    pub nome: Seq<char>,
    pub ie: Option<Seq<char>>,
    pub razao_social: Option<Seq<char>>,
    pub data_nascimento: int,
    pub sexo: Seq<char>,
    pub email: Seq<char>,
    pub telefone: Seq<char>,
    pub senha: Seq<char>,
}

impl View for NewCliente {
    type V = NewClienteView;

    open spec fn view(&self) -> NewClienteView {
        NewClienteView {
            id: self.id@,
            tipo_pessoa: self.tipo_pessoa@,
            cpf: optional_text_view(self.cpf),
            cnpj: optional_text_view(self.cnpj),
            nome: self.nome@,
            ie: optional_text_view(self.ie),
            razao_social: optional_text_view(self.razao_social),
            data_nascimento: self.data_nascimento as int,
            sexo: self.sexo@,
            email: self.email@,
            telefone: self.telefone@,
            senha: self.senha@,
        }
    }
}

/// The customer to store for `payload` under the identifier `id`, with
/// `senha` as the hashed password.
pub open spec fn new_cliente_of(
    payload: CreateClientePayloadView,
    id: Seq<char>,
    senha: Seq<char>,
) -> NewClienteView {
    NewClienteView {
        id,
        tipo_pessoa: payload.tipo_pessoa,
        cpf: payload.cpf,
        cnpj: payload.cnpj,
        nome: payload.nome,
        ie: payload.ie,
        razao_social: payload.razao_social,
        data_nascimento: match calendar_day(payload.data_nascimento) {
            Some(day) => day,
            None => UNKNOWN_BIRTH_DAY as int,
        },
        sexo: payload.sexo,
        email: lowercased(payload.email),
        telefone: payload.telefone,
        senha,
    }
}

impl NewCliente {
    /// Builds the customer to store for `payload` under `id`, with `senha` as
    /// the hashed password.
    pub fn from_payload(payload: CreateClientePayload, id: String, senha: String) -> (new:
        NewCliente)
        ensures
            new@ == new_cliente_of(payload@, id@, senha@),
    {
        let data_nascimento = match parse_calendar_day(payload.data_nascimento.as_str()) {
            Some(day) => day,
            None => UNKNOWN_BIRTH_DAY,
        };
        let email = to_lowercase(payload.email.as_str());
        NewCliente {
            id,
            tipo_pessoa: payload.tipo_pessoa,
            cpf: payload.cpf,
            cnpj: payload.cnpj,
            nome: payload.nome,
            ie: payload.ie,
            razao_social: payload.razao_social,
            data_nascimento,
            sexo: payload.sexo,
            email,
            telefone: payload.telefone,
            senha,
        }
    }
}

} // verus!
