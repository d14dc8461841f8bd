//! Carts, priced orders and the records of a placed order.
//!
//! Amounts are in cents. Instants are seconds since the Unix epoch; a delivery
//! date is a day, counted in days since the epoch.

use crate::middlewares::is_authenticated::ClienteAuth;
use crate::models::produto::{seq_view, ProdutoPayload, ProdutoPayloadView};
use vstd::prelude::*;

verus! {

/// Status code of an order that was placed and not yet handled.
pub const STATUS_PENDENTE: char = 'P';

/// Copies an optional text.
pub fn clone_optional_text(text: &Option<String>) -> (res: Option<String>)
    ensures
        res == *text,
{
    match text {
        Some(t) => Some(t.clone()),
        None => None,
    }
}

/// The view of an optional text.
pub open spec fn optional_text_view(text: Option<String>) -> Option<Seq<char>> {
    match text {
        Some(t) => Some(t@),
        None => None,
    }
}

/// A delivery address as the customer gives it.
pub struct EnderecoPayload {
    pub nome_remetente: String,
    pub cep: String,
    pub logradouro: String,
    pub numero: String,
    pub complemento: Option<String>,
    pub bairro: String,
    pub codigo_ibge_cidade: String,
    pub codigo_ibge_uf: String,
}

/// What an `EnderecoPayload` stands for.
pub ghost struct EnderecoPayloadView {
    pub nome_remetente: Seq<char>,
    pub cep: Seq<char>,
    pub logradouro: Seq<char>,
    pub numero: Seq<char>,
    pub complemento: Option<Seq<char>>,
    pub bairro: Seq<char>,
    pub codigo_ibge_cidade: Seq<char>,
    pub codigo_ibge_uf: Seq<char>,
}

impl View for EnderecoPayload {
    type V = EnderecoPayloadView;

    open spec fn view(&self) -> EnderecoPayloadView {
        EnderecoPayloadView {
            nome_remetente: self.nome_remetente@,
            cep: self.cep@,
            logradouro: self.logradouro@,
            numero: self.numero@,
            complemento: optional_text_view(self.complemento),
            bairro: self.bairro@,
            codigo_ibge_cidade: self.codigo_ibge_cidade@,
            codigo_ibge_uf: self.codigo_ibge_uf@,
        }
    }
}

impl Clone for EnderecoPayload {
    fn clone(&self) -> (res: Self)
        ensures
            res == *self,
    {
        EnderecoPayload {
            nome_remetente: self.nome_remetente.clone(),
            cep: self.cep.clone(),
            logradouro: self.logradouro.clone(),
            numero: self.numero.clone(),
            complemento: clone_optional_text(&self.complemento),
            bairro: self.bairro.clone(),
            codigo_ibge_cidade: self.codigo_ibge_cidade.clone(),
            codigo_ibge_uf: self.codigo_ibge_uf.clone(),
        }
    }
}

/// One line of a cart: a product and how many units of it.
pub struct CartLine {
    pub sku_produto: String,
    pub quantidade: i32,
}

/// What a `CartLine` stands for.
pub ghost struct CartLineView {
    pub sku_produto: Seq<char>,
    pub quantidade: int,
}

impl View for CartLine {
    type V = CartLineView;

    open spec fn view(&self) -> CartLineView {
        CartLineView { sku_produto: self.sku_produto@, quantidade: self.quantidade as int }
    }
}

/// How the customer means to pay. The discount is a hint in basis points:
/// 1000 stands for ten percent.
pub struct PaymentIntent {
    pub forma_pagamento: String,
    pub numero_parcelas: i32,
    pub porcentagem_desconto: i32,
}

/// What a `PaymentIntent` stands for.
pub ghost struct PaymentIntentView {
    pub forma_pagamento: Seq<char>,
    pub numero_parcelas: int,
    pub porcentagem_desconto: int,
}

impl View for PaymentIntent {
    type V = PaymentIntentView;

    open spec fn view(&self) -> PaymentIntentView {
        PaymentIntentView {
            forma_pagamento: self.forma_pagamento@,
            numero_parcelas: self.numero_parcelas as int,
            porcentagem_desconto: self.porcentagem_desconto as int,
        }
    }
}

/// A cart as submitted: nothing in it is priced, and nothing in it is trusted
/// but the customer identifier, which comes from authentication.
pub struct Cart {
    pub id_cliente: String,
    pub endereco_entrega: EnderecoPayload,
    pub pagamento: PaymentIntent,
    pub produtos: Vec<CartLine>,
}

/// What a `Cart` stands for.
pub ghost struct CartView {
    pub id_cliente: Seq<char>,
    pub endereco_entrega: EnderecoPayloadView,
    pub pagamento: PaymentIntentView,
    pub produtos: Seq<CartLineView>,
}

impl View for Cart {
    type V = CartView;

    open spec fn view(&self) -> CartView {
        CartView {
            id_cliente: self.id_cliente@,
            endereco_entrega: self.endereco_entrega@,
            pagamento: self.pagamento@,
            produtos: seq_view(self.produtos@),
        }
    }
}

impl Cart {
    /// The cart of the customer that a request was authenticated as: the
    /// identifier is the one that authentication gives, whatever the request
    /// itself says.
    pub fn for_customer(
        cliente: ClienteAuth,
        endereco_entrega: EnderecoPayload,
        pagamento: PaymentIntent,
        produtos: Vec<CartLine>,
    ) -> (cart: Cart)
        ensures
            cart == (Cart { id_cliente: cliente.id, endereco_entrega, pagamento, produtos }),
    {
        Cart { id_cliente: cliente.id, endereco_entrega, pagamento, produtos }
    }
}

/// The payment of a priced order.
pub struct PagamentoPayload {
    pub forma_pagamento: String,
    pub numero_parcelas: i32,
    pub valor_total: i64,
    pub valor_parcela: i64,
}

/// What a `PagamentoPayload` stands for.
pub ghost struct PagamentoPayloadView {
    pub forma_pagamento: Seq<char>,
    pub numero_parcelas: int,
    pub valor_total: int,
    pub valor_parcela: int,
}

impl View for PagamentoPayload {
    type V = PagamentoPayloadView;

    open spec fn view(&self) -> PagamentoPayloadView {
        PagamentoPayloadView {
            forma_pagamento: self.forma_pagamento@,
            numero_parcelas: self.numero_parcelas as int,
            valor_total: self.valor_total as int,
            valor_parcela: self.valor_parcela as int,
        }
    }
}

/// A fully priced order, ready to be stored.
pub struct PedidoPayload {
    pub id_cliente: String,
    pub valor_bruto: i64,
    pub valor_desconto: i64,
    pub valor_frete: i64,
    pub valor_liquido: i64,
    pub data_entrega: i64,
    pub endereco_entrega: EnderecoPayload,
    pub pagamento: PagamentoPayload,
    pub produtos: Vec<ProdutoPayload>,
}

/// What a `PedidoPayload` stands for.
pub ghost struct PedidoPayloadView {
    pub id_cliente: Seq<char>,
    pub valor_bruto: int,
    pub valor_desconto: int,
    pub valor_frete: int,
    pub valor_liquido: int,
    pub data_entrega: int,
    pub endereco_entrega: EnderecoPayloadView,
    pub pagamento: PagamentoPayloadView,
    pub produtos: Seq<ProdutoPayloadView>,
}

impl View for PedidoPayload {
    type V = PedidoPayloadView;

    open spec fn view(&self) -> PedidoPayloadView {
        PedidoPayloadView {
            id_cliente: self.id_cliente@,
            valor_bruto: self.valor_bruto as int,
            valor_desconto: self.valor_desconto as int,
            valor_frete: self.valor_frete as int,
            valor_liquido: self.valor_liquido as int,
            data_entrega: self.data_entrega as int,
            endereco_entrega: self.endereco_entrega@,
            pagamento: self.pagamento@,
            produtos: seq_view(self.produtos@),
        }
    }
}

/// The header record of a placed order.
pub struct Pedido {
    pub id: String,
    pub id_cliente: String,
    pub valor_bruto: i64,
    pub valor_frete: i64,
    pub valor_desconto: i64,
    pub valor_liquido: i64,
    pub status: char,
    pub data_entrega: i64,
    pub created_at: i64,
    pub updated_at: i64,
}

/// What a `Pedido` stands for.
pub ghost struct PedidoView {
    pub id: Seq<char>,
    pub id_cliente: Seq<char>,
    pub valor_bruto: int,
    pub valor_frete: int,
    pub valor_desconto: int,
    pub valor_liquido: int,
    pub status: char,
    pub data_entrega: int,
    pub created_at: int,
    pub updated_at: int,
}

impl View for Pedido {
    type V = PedidoView;

    open spec fn view(&self) -> PedidoView {
        PedidoView {
            id: self.id@,
            id_cliente: self.id_cliente@,
            valor_bruto: self.valor_bruto as int,
            valor_frete: self.valor_frete as int,
            valor_desconto: self.valor_desconto as int,
            valor_liquido: self.valor_liquido as int,
            status: self.status,
            data_entrega: self.data_entrega as int,
            created_at: self.created_at as int,
            updated_at: self.updated_at as int,
        }
    }
}

/// The delivery address record of a placed order.
pub struct EnderecosEntrega {
    pub id: String,
    pub id_pedido: String,
    pub nome_remetente: String,
    pub cep: String,
    pub logradouro: String,
    pub numero: String,
    pub complemento: Option<String>,
    pub bairro: String,
    pub codigo_ibge_cidade: String,
    pub codigo_ibge_uf: String,
    pub created_at: i64,
    pub updated_at: i64,
}

/// What an `EnderecosEntrega` stands for.
pub ghost struct EnderecosEntregaView {
    pub id: Seq<char>,
    pub id_pedido: Seq<char>,
    pub endereco: EnderecoPayloadView,
    pub created_at: int,
    pub updated_at: int,
}

impl View for EnderecosEntrega {
    type V = EnderecosEntregaView;

    open spec fn view(&self) -> EnderecosEntregaView {
        EnderecosEntregaView {
            id: self.id@,
            id_pedido: self.id_pedido@,
            endereco: EnderecoPayloadView {
                nome_remetente: self.nome_remetente@,
                cep: self.cep@,
                logradouro: self.logradouro@,
                numero: self.numero@,
                complemento: optional_text_view(self.complemento),
                bairro: self.bairro@,
                codigo_ibge_cidade: self.codigo_ibge_cidade@,
                codigo_ibge_uf: self.codigo_ibge_uf@,
            },
            created_at: self.created_at as int,
            updated_at: self.updated_at as int,
        }
    }
}

/// The payment record of a placed order.
pub struct Pagamento {
    pub id: String,
    pub id_pedido: String,
    pub forma_pagamento: String,
    pub numero_parcelas: i32,
    pub valor_parcela: i64,
    pub valor_total: i64,
    pub boleto: Option<String>,
    pub pix: Option<String>,
    pub tid: Option<String>,
    pub created_at: i64,
    pub updated_at: i64,
}

/// What a `Pagamento` stands for.
pub ghost struct PagamentoView {
    pub id: Seq<char>,
    pub id_pedido: Seq<char>,
    pub forma_pagamento: Seq<char>,
    pub numero_parcelas: int,
    pub valor_parcela: int,
    pub valor_total: int,
    pub boleto: Option<Seq<char>>,
    pub pix: Option<Seq<char>>,
    pub tid: Option<Seq<char>>,
    pub created_at: int,
    pub updated_at: int,
}

impl View for Pagamento {
    type V = PagamentoView;

    open spec fn view(&self) -> PagamentoView {
        PagamentoView {
            id: self.id@,
            id_pedido: self.id_pedido@,
            forma_pagamento: self.forma_pagamento@,
            numero_parcelas: self.numero_parcelas as int,
            valor_parcela: self.valor_parcela as int,
            valor_total: self.valor_total as int,
            boleto: optional_text_view(self.boleto),
            pix: optional_text_view(self.pix),
            tid: optional_text_view(self.tid),
            created_at: self.created_at as int,
            updated_at: self.updated_at as int,
        }
    }
}

/// A line item record of a placed order: a snapshot of the product as it was
/// priced, not a link to the live product.
pub struct ProdutosPedido {
    pub id: String,
    pub id_pedido: String,
    pub sku_produto: String,
    pub quantidade: i32,
    pub valor_unitario: i64,
    pub valor_bruto: i64,
    pub valor_frete: i64,
    pub valor_desconto: i64,
    pub valor_liquido: i64,
    pub created_at: i64,
    pub updated_at: i64,
}

/// What a `ProdutosPedido` stands for.
pub ghost struct ProdutosPedidoView {
    pub id: Seq<char>,
    pub id_pedido: Seq<char>,
    pub linha: ProdutoPayloadView,
    pub created_at: int,
    pub updated_at: int,
}

impl View for ProdutosPedido {
    type V = ProdutosPedidoView;

    open spec fn view(&self) -> ProdutosPedidoView {
        ProdutosPedidoView {
            id: self.id@,
            id_pedido: self.id_pedido@,
            linha: ProdutoPayloadView {
                sku_produto: self.sku_produto@,
                quantidade: self.quantidade as int,
                valor_unitario: self.valor_unitario as int,
                valor_bruto: self.valor_bruto as int,
                valor_desconto: self.valor_desconto as int,
                valor_liquido: self.valor_liquido as int,
                valor_frete: self.valor_frete as int,
            },
            created_at: self.created_at as int,
            updated_at: self.updated_at as int,
        }
    }
}

/// A placed order as it is stored: the header with its address, its payment
/// and its line items.
pub struct PlacedOrder {
    pub pedido: Pedido,
    pub enderecos_entrega: EnderecosEntrega,
    pub pagamentos: Pagamento,
    pub produtos: Vec<ProdutosPedido>,
}

/// What a `PlacedOrder` stands for.
pub ghost struct PlacedOrderView {
    pub pedido: PedidoView,
    pub enderecos_entrega: EnderecosEntregaView,
    pub pagamentos: PagamentoView,
    pub produtos: Seq<ProdutosPedidoView>,
}

impl View for PlacedOrder {
    type V = PlacedOrderView;

    open spec fn view(&self) -> PlacedOrderView {
        PlacedOrderView {
            pedido: self.pedido@,
            enderecos_entrega: self.enderecos_entrega@,
            pagamentos: self.pagamentos@,
            produtos: seq_view(self.produtos@),
        }
    }
}

} // verus!
