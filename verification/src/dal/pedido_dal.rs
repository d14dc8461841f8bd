//! The records of an order: a header, one address, one payment, and a line
//! item for each line, all under fresh identifiers.

use crate::models::pedido::{
    clone_optional_text, EnderecosEntrega, EnderecosEntregaView, Pagamento, PagamentoView, Pedido,
    PedidoPayload, PedidoPayloadView, PedidoView, PlacedOrder, PlacedOrderView, ProdutosPedido,
    ProdutosPedidoView, STATUS_PENDENTE,
};
use crate::models::produto::seq_view;
use crate::utils::clock::utc_now_seconds;
use crate::utils::identifier::{fresh_identifier, is_identifier};
use vstd::prelude::*;

verus! {

/// The identifiers of the records of one order.
pub struct OrderIds {
    pub pedido: String,
    pub endereco: String,
    pub pagamento: String,
    pub produtos: Vec<String>,
}

/// What an `OrderIds` stands for.
pub ghost struct OrderIdsView {
    pub pedido: Seq<char>,
    pub endereco: Seq<char>,
    pub pagamento: Seq<char>,
    pub produtos: Seq<Seq<char>>,
}

impl View for OrderIds {
    type V = OrderIdsView;

    open spec fn view(&self) -> OrderIdsView {
        OrderIdsView {
            pedido: self.pedido@,
            endereco: self.endereco@,
            pagamento: self.pagamento@,
            produtos: seq_view(self.produtos@),
        }
    }
}

impl OrderIdsView {
    /// Whether every identifier has the form of one.
    pub open spec fn well_formed(self) -> bool {
        &&& is_identifier(self.pedido)
        &&& is_identifier(self.endereco)
        &&& is_identifier(self.pagamento)
        &&& forall|i: int|
            0 <= i < self.produtos.len() ==> is_identifier(#[trigger] self.produtos[i])
    }
}

/// The records of a placed order are of one piece: the header carries the
/// amounts, the day of delivery and the customer of the priced order, and is
/// pending; the address and the payment are the priced order's; there is one
/// line item for each line, in order and unchanged; and the address, the
/// payment and every line item refer to the header.
pub proof fn lemma_records_are_the_priced_order(
    order: PedidoPayloadView,
    ids: OrderIdsView,
    stored_at: int,
)
    ensures
        ({
            let placed = PedidoDal::composed(order, ids, stored_at);
            &&& placed.pedido.id_cliente == order.id_cliente
            &&& placed.pedido.valor_bruto == order.valor_bruto
            &&& placed.pedido.valor_desconto == order.valor_desconto
            &&& placed.pedido.valor_frete == order.valor_frete
            &&& placed.pedido.valor_liquido == order.valor_liquido
            &&& placed.pedido.data_entrega == order.data_entrega
            &&& placed.pedido.status == STATUS_PENDENTE
            &&& placed.enderecos_entrega.endereco == order.endereco_entrega
            &&& placed.enderecos_entrega.id_pedido == placed.pedido.id
            &&& placed.pagamentos.valor_total == order.pagamento.valor_total
            &&& placed.pagamentos.valor_parcela == order.pagamento.valor_parcela
            &&& placed.pagamentos.numero_parcelas == order.pagamento.numero_parcelas
            &&& placed.pagamentos.id_pedido == placed.pedido.id
            &&& placed.produtos.len() == order.produtos.len()
            &&& forall|i: int|
                0 <= i < order.produtos.len() ==> (#[trigger] placed.produtos[i]).linha
                    == order.produtos[i] && placed.produtos[i].id_pedido == placed.pedido.id
                    && placed.produtos[i].id == ids.produtos[i]
            &&& PedidoDal::ids_of(placed).pedido == ids.pedido
            &&& PedidoDal::ids_of(placed).endereco == ids.endereco
            &&& PedidoDal::ids_of(placed).pagamento == ids.pagamento
        }),
{
}

/// The store of orders.
pub struct PedidoDal;

impl PedidoDal {
    /// The records of the priced order `order` under the identifiers `ids`,
    /// stored at the instant `stored_at`: the amounts are the priced order's,
    /// unchanged; the status is pending; every record but the header refers to
    /// the header.
    pub open spec fn composed(
        order: PedidoPayloadView,
        ids: OrderIdsView,
        stored_at: int,
    ) -> PlacedOrderView {
        PlacedOrderView {
            pedido: PedidoView {
                id: ids.pedido,
                id_cliente: order.id_cliente,
                valor_bruto: order.valor_bruto,
                valor_frete: order.valor_frete,
                valor_desconto: order.valor_desconto,
                valor_liquido: order.valor_liquido,
                status: STATUS_PENDENTE,
                data_entrega: order.data_entrega,
                created_at: stored_at,
                updated_at: stored_at,
            },
            enderecos_entrega: EnderecosEntregaView {
                id: ids.endereco,
                id_pedido: ids.pedido,
                endereco: order.endereco_entrega,
                created_at: stored_at,
                updated_at: stored_at,
            },
            pagamentos: PagamentoView {
                id: ids.pagamento,
                id_pedido: ids.pedido,
                forma_pagamento: order.pagamento.forma_pagamento,
                numero_parcelas: order.pagamento.numero_parcelas,
                valor_parcela: order.pagamento.valor_parcela,
                valor_total: order.pagamento.valor_total,
                boleto: None,
                pix: None,
                tid: None,
                created_at: stored_at,
                updated_at: stored_at,
            },
            produtos: Seq::new(
                order.produtos.len(),
                |i: int|
                    ProdutosPedidoView {
                        id: ids.produtos[i],
                        id_pedido: ids.pedido,
                        linha: order.produtos[i],
                        created_at: stored_at,
                        updated_at: stored_at,
                    },
            ),
        }
    }

    /// The identifiers under which the records of `placed` are stored.
    pub open spec fn ids_of(placed: PlacedOrderView) -> OrderIdsView {
        OrderIdsView {
            pedido: placed.pedido.id,
            endereco: placed.enderecos_entrega.id,
            pagamento: placed.pagamentos.id,
            produtos: Seq::new(placed.produtos.len(), |i: int| placed.produtos[i].id),
        }
    }

    /// Builds the records of `payload` under `ids`, as stored at `stored_at`;
    /// `None` where `ids` does not hold one identifier for each line.
    pub fn compose(payload: &PedidoPayload, ids: OrderIds, stored_at: i64) -> (placed: Option<
        PlacedOrder,
    >)
        ensures
            match placed {
                Some(p) => ids.produtos.len() == payload.produtos.len() && p@ == Self::composed(
                    payload@,
                    ids@,
                    stored_at as int,
                ),
                None => ids.produtos.len() != payload.produtos.len(),
            },
    {
        if ids.produtos.len() != payload.produtos.len() {
            None
        } else {
            Some(Self::build(payload, ids, stored_at))
        }
    }

    /// Builds the records of `payload` under `ids`, one identifier for each
    /// line, as stored at `stored_at`.
    fn build(payload: &PedidoPayload, ids: OrderIds, stored_at: i64) -> (placed: PlacedOrder)
        requires
            ids.produtos.len() == payload.produtos.len(),
        ensures
            placed@ == Self::composed(payload@, ids@, stored_at as int),
    {
        let ghost target = Self::composed(payload@, ids@, stored_at as int);
        let n = payload.produtos.len();
        let mut produtos: Vec<ProdutosPedido> = Vec::new();
        let mut i: usize = 0;
        while i < n
            invariant
                i <= n,
                n == payload.produtos.len(),
                n == ids.produtos.len(),
                target == Self::composed(payload@, ids@, stored_at as int),
                produtos.len() == i,
                seq_view(produtos@) == target.produtos.take(i as int),
            decreases n - i,
        {
            let line = &payload.produtos[i];
            let record = ProdutosPedido {
                id: ids.produtos[i].clone(),
                id_pedido: ids.pedido.clone(),
                sku_produto: line.sku_produto.clone(),
                quantidade: line.quantidade,
                valor_unitario: line.valor_unitario,
                valor_bruto: line.valor_bruto,
                valor_frete: line.valor_frete,
                valor_desconto: line.valor_desconto,
                valor_liquido: line.valor_liquido,
                created_at: stored_at,
                updated_at: stored_at,
            };
            proof {
                assert(record@ == target.produtos[i as int]);
                assert(seq_view(produtos@.push(record)) =~= target.produtos.take(i + 1));
            }
            produtos.push(record);
            i = i + 1;
        }
        proof {
            assert(target.produtos.take(n as int) =~= target.produtos);
        }
        let address = &payload.endereco_entrega;
        PlacedOrder {
            pedido: Pedido {
                id: ids.pedido.clone(),
                id_cliente: payload.id_cliente.clone(),
                valor_bruto: payload.valor_bruto,
                valor_frete: payload.valor_frete,
                valor_desconto: payload.valor_desconto,
                valor_liquido: payload.valor_liquido,
                status: STATUS_PENDENTE,
                data_entrega: payload.data_entrega,
                created_at: stored_at,
                updated_at: stored_at,
            },
            enderecos_entrega: EnderecosEntrega {
                id: ids.endereco,
                id_pedido: ids.pedido.clone(),
                nome_remetente: address.nome_remetente.clone(),
                cep: address.cep.clone(),
                logradouro: address.logradouro.clone(),
                numero: address.numero.clone(),
                complemento: clone_optional_text(&address.complemento),
                bairro: address.bairro.clone(),
                codigo_ibge_cidade: address.codigo_ibge_cidade.clone(),
                codigo_ibge_uf: address.codigo_ibge_uf.clone(),
                created_at: stored_at,
                updated_at: stored_at,
            },
            pagamentos: Pagamento {
                id: ids.pagamento,
                id_pedido: ids.pedido,
                forma_pagamento: payload.pagamento.forma_pagamento.clone(),
                numero_parcelas: payload.pagamento.numero_parcelas,
                valor_parcela: payload.pagamento.valor_parcela,
                valor_total: payload.pagamento.valor_total,
                boleto: None,
                pix: None,
                tid: None,
                created_at: stored_at,
                updated_at: stored_at,
            },
            produtos,
        }
    }

    /// Draws fresh identifiers for an order of `lines` lines.
    pub fn fresh_ids(lines: usize) -> (ids: OrderIds)
        ensures
            ids@.well_formed(),
            ids.produtos.len() == lines,
    {
        let pedido = fresh_identifier();
        let endereco = fresh_identifier();
        let pagamento = fresh_identifier();
        let mut produtos: Vec<String> = Vec::new();
        let mut i: usize = 0;
        while i < lines
            invariant
                i <= lines,
                produtos.len() == i,
                forall|k: int| 0 <= k < i ==> is_identifier(#[trigger] produtos@[k]@),
            decreases lines - i,
        {
            produtos.push(fresh_identifier());
            i = i + 1;
        }
        OrderIds { pedido, endereco, pagamento, produtos }
    }

    /// Builds the records of `payload`, as of now and under fresh
    /// identifiers. Which identifiers and which instant is not determined;
    /// everything else is.
    pub fn create(payload: &PedidoPayload) -> (placed: PlacedOrder)
        ensures
            placed@ == Self::composed(
                payload@,
                Self::ids_of(placed@),
                placed@.pedido.created_at,
            ),
            Self::ids_of(placed@).well_formed(),
    {
        let ids = Self::fresh_ids(payload.produtos.len());
        let stored_at = utc_now_seconds();
        let ghost ids_view = ids@;
        let placed = Self::build(payload, ids, stored_at);
        proof {
            assert(Self::ids_of(placed@).produtos =~= ids_view.produtos);
        }
        placed
    }
}

} // verus!
