//! What can go wrong while an order is created.

use crate::validations::cliente_validations::ValidationFailure;
use vstd::prelude::*;
use vstd::string::*;

verus! {

/// A message for the caller of the service, with the HTTP status it goes
/// out under.
pub struct AppMessage {
    pub status_code: u16,
    pub status: String,
    pub message: String,
}

/// What an `AppMessage` stands for.
pub ghost struct AppMessageView {
    pub status_code: int,
    pub status: Seq<char>,
    pub message: Seq<char>,
}

impl View for AppMessage {
    type V = AppMessageView;

    open spec fn view(&self) -> AppMessageView {
        AppMessageView {
            status_code: self.status_code as int,
            status: self.status@,
            message: self.message@,
        }
    }
}

/// The word for a status code: `success` from 200 to 299, `error` otherwise.
pub open spec fn status_word(status_code: int) -> Seq<char> {
    if 200 <= status_code <= 299 {
        "success"@
    } else {
        "error"@
    }
}

impl AppMessage {
    /// A message under the status `status_code`.
    pub fn new(message: &str, status_code: u16) -> (res: AppMessage)
        ensures
            res@ == (AppMessageView {
                status_code: status_code as int,
                status: status_word(status_code as int),
                message: message@,
            }),
    {
        let status = if status_code >= 200 && status_code <= 299 {
            String::from_str("success")
        } else {
            String::from_str("error")
        };
        AppMessage { status_code, status, message: String::from_str(message) }
    }
}

/// The rules that submitted data breaks, in words.
pub struct ValidationError {
    pub status: String,
    pub message: String,
    pub errors: Vec<String>,
}

impl ValidationError {
    /// The error for the rules `failures`, each in its words and in order.
    pub fn new(failures: &Vec<ValidationFailure>) -> (error: ValidationError)
        ensures
            error.status@ == "error"@,
            error.message@ == "Erro de validação"@,
            error.errors.len() == failures.len(),
            forall|i: int|
                0 <= i < failures.len() ==> (#[trigger] error.errors@[i])@ == failures@[i].text(),
    {
        let n = failures.len();
        let mut errors: Vec<String> = Vec::new();
        let mut i: usize = 0;
        while i < n
            invariant
                i <= n,
                n == failures.len(),
                errors.len() == i,
                forall|k: int| 0 <= k < i ==> (#[trigger] errors@[k])@ == failures@[k].text(),
            decreases n - i,
        {
            errors.push(failures[i].message());
            i = i + 1;
        }
        ValidationError {
            status: String::from_str("error"),
            message: String::from_str("Erro de validação"),
            errors,
        }
    }
}

/// The part of a cart that makes it malformed.
#[derive(Clone, Copy, Debug, PartialEq, Eq, Structural)]
pub enum CartField {
    /// The cart has no line.
    Produtos,
    /// The number of installments is zero.
    NumeroParcelas,
    /// An amount of the priced order is beyond what a record can hold.
    Valores,
}

/// Why an order was not created, or not fully reconciled.
#[derive(Debug)]
pub enum OrderError {
    /// The cart is empty or malformed.
    InvalidInput { field: CartField },
    /// The catalog has no product with this SKU.
    ProductNotFound { sku: String },
    /// The cart asks for more units of this SKU than are in stock.
    InsufficientStock { sku: String },
    /// The freight table has no entry for this regional code.
    InvalidRegion { codigo: String },
    /// No database handle could be acquired.
    ResourceUnavailable,
    /// The order could not be stored; nothing of it was.
    PersistenceFailure,
    /// The order is stored, but the inventory of this SKU was not adjusted.
    ReconciliationFailure { sku: String },
}

/// What an `OrderError` stands for.
pub ghost enum OrderErrorView {
    InvalidInput { field: CartField },
    ProductNotFound { sku: Seq<char> },
    InsufficientStock { sku: Seq<char> },
    InvalidRegion { codigo: Seq<char> },
    ResourceUnavailable,
    PersistenceFailure,
    ReconciliationFailure { sku: Seq<char> },
}

impl View for OrderError {
    type V = OrderErrorView;

    open spec fn view(&self) -> OrderErrorView {
        match *self {
            OrderError::InvalidInput { field } => OrderErrorView::InvalidInput { field },
            OrderError::ProductNotFound { sku } => OrderErrorView::ProductNotFound { sku: sku@ },
            OrderError::InsufficientStock { sku } => OrderErrorView::InsufficientStock {
                sku: sku@,
            },
            OrderError::InvalidRegion { codigo } => OrderErrorView::InvalidRegion {
                codigo: codigo@,
            },
            OrderError::ResourceUnavailable => OrderErrorView::ResourceUnavailable,
            OrderError::PersistenceFailure => OrderErrorView::PersistenceFailure,
            OrderError::ReconciliationFailure { sku } => OrderErrorView::ReconciliationFailure {
                sku: sku@,
            },
        }
    }
}

impl OrderErrorView {
    /// The HTTP status of an error: 400 where the cart is at fault, 500 where
    /// the service is.
    pub open spec fn status_code(self) -> int {
        match self {
            OrderErrorView::InvalidInput { .. } => 400,
            OrderErrorView::ProductNotFound { .. } => 400,
            OrderErrorView::InsufficientStock { .. } => 400,
            OrderErrorView::InvalidRegion { .. } => 400,
            OrderErrorView::ResourceUnavailable => 500,
            OrderErrorView::PersistenceFailure => 500,
            OrderErrorView::ReconciliationFailure { .. } => 500,
        }
    }

    /// The words of an error, for a person to read; they name the SKU or the
    /// regional code at fault where there is one.
    pub open spec fn message(self) -> Seq<char> {
        match self {
            OrderErrorView::InvalidInput { field } => match field {
                CartField::Produtos => "Nenhum produto informado"@,
                CartField::NumeroParcelas => "Número de parcelas inválido"@,
                CartField::Valores => "Valores do pedido fora do limite"@,
            },
            OrderErrorView::ProductNotFound { sku } => "Produto com SKU igual a \""@ + sku
                + "\" não existe"@,
            OrderErrorView::InsufficientStock { sku } => "Produto com SKU igual a \""@ + sku
                + "\" está com estoque em falta"@,
            OrderErrorView::InvalidRegion { codigo } => "Código IBGE UF "@ + codigo
                + " não encontrado na tabela de fretes"@,
            OrderErrorView::ResourceUnavailable => "Banco de dados indisponível"@,
            OrderErrorView::PersistenceFailure => "Erro ao criar pedido"@,
            OrderErrorView::ReconciliationFailure { sku } => {
                "Erro ao atualizar estoque do produto "@ + sku
            },
        }
    }
}

impl OrderError {
    /// The HTTP status of the error.
    pub fn status_code(&self) -> (code: u16)
        ensures
            code == self@.status_code(),
    {
        match self {
            OrderError::InvalidInput { .. } => 400,
            OrderError::ProductNotFound { .. } => 400,
            OrderError::InsufficientStock { .. } => 400,
            OrderError::InvalidRegion { .. } => 400,
            OrderError::ResourceUnavailable => 500,
            OrderError::PersistenceFailure => 500,
            OrderError::ReconciliationFailure { .. } => 500,
        }
    }

    /// The words of the error.
    pub fn message(&self) -> (text: String)
        ensures
            text@ == self@.message(),
    {
        match self {
            OrderError::InvalidInput { field } => match field {
                CartField::Produtos => String::from_str("Nenhum produto informado"),
                CartField::NumeroParcelas => String::from_str("Número de parcelas inválido"),
                CartField::Valores => String::from_str("Valores do pedido fora do limite"),
            },
            OrderError::ProductNotFound { sku } => {
                let mut text = String::from_str("Produto com SKU igual a \"");
                text.append(sku.as_str());
                text.append("\" não existe");
                text
            },
            OrderError::InsufficientStock { sku } => {
                let mut text = String::from_str("Produto com SKU igual a \"");
                text.append(sku.as_str());
                text.append("\" está com estoque em falta");
                text
            },
            OrderError::InvalidRegion { codigo } => {
                let mut text = String::from_str("Código IBGE UF ");
                text.append(codigo.as_str());
                text.append(" não encontrado na tabela de fretes");
                text
            },
            OrderError::ResourceUnavailable => String::from_str("Banco de dados indisponível"),
            OrderError::PersistenceFailure => String::from_str("Erro ao criar pedido"),
            OrderError::ReconciliationFailure { sku } => {
                let mut text = String::from_str("Erro ao atualizar estoque do produto ");
                text.append(sku.as_str());
                text
            },
        }
    }

    /// The error as a message for the caller of the service.
    pub fn to_app_message(&self) -> (res: AppMessage)
        ensures
            res@ == (AppMessageView {
                status_code: self@.status_code(),
                status: "error"@,
                message: self@.message(),
            }),
    {
        let text = self.message();
        AppMessage::new(text.as_str(), self.status_code())
    }
}

} // verus!
