//! Pricing and validation of a cart against the catalog.
//!
//! The cart's own prices, if it had any, play no part: a line is priced by the
//! catalog, the freight by the freight table, and the order by its lines.

use crate::models::pedido::{
    Cart, CartLineView, CartView, PagamentoPayload, PagamentoPayloadView, PedidoPayload,
    PedidoPayloadView,
};
use crate::models::produto::{seq_view, Produto, ProdutoPayload, ProdutoPayloadView, ProdutoView};
use crate::utils::app_message::{CartField, OrderError, OrderErrorView};
use crate::utils::money::{round_div, rounded};
use crate::utils::search::{
    first_such, lemma_first_such, lemma_first_such_agrees, lemma_first_such_stays,
};
use crate::utils::tabela_frete::{parse_region_code, region_code, FreightTable};
use vstd::prelude::*;

verus! {

/// Seconds in a day.
pub const SECONDS_PER_DAY: i64 = 86_400;

/// Days between the submission of a cart and the delivery of its order.
pub const DELIVERY_DAYS: i64 = 3;

/// The product that the catalog rows `catalog` hold for `sku`: where several
/// rows carry the SKU, the last one.
pub open spec fn find_product(catalog: Seq<ProdutoView>, sku: Seq<char>) -> Option<ProdutoView>
    decreases catalog.len(),
{
    if catalog.len() == 0 {
        None
    } else if catalog.last().sku == sku {
        Some(catalog.last())
    } else {
        find_product(catalog.drop_last(), sku)
    }
}

/// `find_product` finds a row of the catalog with the SKU asked for, and finds
/// none only where no row has it.
pub proof fn lemma_find_product(catalog: Seq<ProdutoView>, sku: Seq<char>)
    ensures
        match find_product(catalog, sku) {
            Some(p) => p.sku == sku && catalog.contains(p),
            None => forall|j: int| 0 <= j < catalog.len() ==> (#[trigger] catalog[j]).sku != sku,
        },
    decreases catalog.len(),
{
    if catalog.len() > 0 {
        if catalog.last().sku == sku {
            assert(catalog[catalog.len() - 1] == catalog.last());
        } else {
            lemma_find_product(catalog.drop_last(), sku);
            match find_product(catalog.drop_last(), sku) {
                Some(p) => {
                    let j = choose|j: int|
                        0 <= j < catalog.drop_last().len() && catalog.drop_last()[j] == p;
                    assert(catalog[j] == p);
                },
                None => {
                    assert forall|j: int| 0 <= j < catalog.len() implies (#[trigger] catalog[j]).sku
                        != sku by {
                        if j < catalog.len() - 1 {
                            assert(catalog.drop_last()[j] == catalog[j]);
                        }
                    }
                },
            }
        }
    }
}

/// Whether the catalog has no product for line `i`.
pub open spec fn line_missing(lines: Seq<CartLineView>, catalog: Seq<ProdutoView>) -> spec_fn(
    int,
) -> bool {
    |i: int| find_product(catalog, lines[i].sku_produto) is None
}

/// Whether line `i` asks for more units than its product has in stock.
pub open spec fn line_short(lines: Seq<CartLineView>, catalog: Seq<ProdutoView>) -> spec_fn(
    int,
) -> bool {
    |i: int|
        match find_product(catalog, lines[i].sku_produto) {
            Some(p) => p.estoque < lines[i].quantidade,
            None => false,
        }
}

/// The discount on a gross amount: the rate is in basis points, and a rate
/// that is not positive gives no discount.
pub open spec fn discount_of(bruto: int, rate: int) -> int {
    if rate > 0 {
        round_div(bruto * rate, 10_000)
    } else {
        0
    }
}

/// A cart line priced at `preco` a unit.
pub open spec fn priced_line(
    line: CartLineView,
    preco: int,
    rate: int,
    frete: int,
) -> ProdutoPayloadView {
    let bruto = preco * line.quantidade;
    ProdutoPayloadView {
        sku_produto: line.sku_produto,
        quantidade: line.quantidade,
        valor_unitario: preco,
        valor_bruto: bruto,
        valor_desconto: discount_of(bruto, rate),
        valor_liquido: bruto - discount_of(bruto, rate),
        valor_frete: frete,
    }
}

/// The lines of a cart, each priced by the catalog; each carries an even share
/// of the freight, whatever its quantity.
pub open spec fn priced_lines(
    lines: Seq<CartLineView>,
    catalog: Seq<ProdutoView>,
    rate: int,
    frete: int,
) -> Seq<ProdutoPayloadView> {
    Seq::new(
        lines.len(),
        |i: int|
            priced_line(
                lines[i],
                find_product(catalog, lines[i].sku_produto)->0.preco,
                rate,
                round_div(frete, lines.len() as int),
            ),
    )
}

/// Sum of the gross amounts of priced lines.
pub open spec fn total_bruto(lines: Seq<ProdutoPayloadView>) -> int
    decreases lines.len(),
{
    if lines.len() == 0 {
        0
    } else {
        total_bruto(lines.drop_last()) + lines.last().valor_bruto
    }
}

/// Sum of the discounts of priced lines.
pub open spec fn total_desconto(lines: Seq<ProdutoPayloadView>) -> int
    decreases lines.len(),
{
    if lines.len() == 0 {
        0
    } else {
        total_desconto(lines.drop_last()) + lines.last().valor_desconto
    }
}

/// The day of delivery of an order submitted at the instant `now`.
pub open spec fn delivery_day(now: int) -> int {
    now / (SECONDS_PER_DAY as int) + DELIVERY_DAYS
}

/// The order that a cart prices to, once every check has passed.
pub open spec fn priced_order(
    cart: CartView,
    catalog: Seq<ProdutoView>,
    frete: int,
    now: int,
) -> PedidoPayloadView {
    let produtos = priced_lines(
        cart.produtos,
        catalog,
        cart.pagamento.porcentagem_desconto,
        frete,
    );
    let liquido = total_bruto(produtos) - total_desconto(produtos) + frete;
    PedidoPayloadView {
        id_cliente: cart.id_cliente,
        valor_bruto: total_bruto(produtos),
        valor_desconto: total_desconto(produtos),
        valor_frete: frete,
        valor_liquido: liquido,
        data_entrega: delivery_day(now),
        endereco_entrega: cart.endereco_entrega,
        pagamento: PagamentoPayloadView {
            forma_pagamento: cart.pagamento.forma_pagamento,
            numero_parcelas: cart.pagamento.numero_parcelas,
            valor_total: liquido,
            valor_parcela: round_div(liquido, cart.pagamento.numero_parcelas),
        },
        produtos,
    }
}

/// Whether every amount of a priced order fits the field that holds it.
pub open spec fn order_representable(order: PedidoPayloadView) -> bool {
    &&& forall|i: int|
        0 <= i < order.produtos.len() ==> (#[trigger] order.produtos[i]).representable()
    &&& i64::MIN <= order.valor_bruto <= i64::MAX
    &&& i64::MIN <= order.valor_desconto <= i64::MAX
    &&& i64::MIN <= order.valor_liquido <= i64::MAX
    &&& i64::MIN <= order.pagamento.valor_parcela <= i64::MAX
}

/// Whether the amounts of a priced order agree with one another: each line's
/// gross amount is its unit price times its quantity, and its net amount the
/// gross amount less the discount; the order's gross amount and discount are
/// the sums over its lines; its net amount is gross less discount plus
/// freight, and is what the payment amounts to.
pub open spec fn order_consistent(order: PedidoPayloadView) -> bool {
    &&& forall|i: int|
        0 <= i < order.produtos.len() ==> line_consistent(#[trigger] order.produtos[i])
    &&& order.valor_bruto == total_bruto(order.produtos)
    &&& order.valor_desconto == total_desconto(order.produtos)
    &&& order.valor_liquido == order.valor_bruto - order.valor_desconto + order.valor_frete
    &&& order.pagamento.valor_total == order.valor_liquido
}

/// Whether the amounts of a priced line agree with one another.
pub open spec fn line_consistent(line: ProdutoPayloadView) -> bool {
    &&& line.valor_bruto == line.valor_unitario * line.quantidade
    &&& line.valor_liquido == line.valor_bruto - line.valor_desconto
}

/// What pricing a cart gives: the checks in the order in which they are made,
/// then the priced order.
pub open spec fn price_of(
    cart: CartView,
    catalog: Seq<ProdutoView>,
    table: Map<int, int>,
    now: int,
) -> Result<PedidoPayloadView, OrderErrorView> {
    let lines = cart.produtos;
    let n = lines.len() as int;
    let missing = first_such(n, line_missing(lines, catalog));
    let region = region_code(cart.endereco_entrega.codigo_ibge_uf);
    let short = first_such(n, line_short(lines, catalog));
    if n == 0 {
        Err(OrderErrorView::InvalidInput { field: CartField::Produtos })
    } else if missing < n {
        Err(OrderErrorView::ProductNotFound { sku: lines[missing].sku_produto })
    } else if region is None || !table.contains_key(region->0) {
        Err(OrderErrorView::InvalidRegion { codigo: cart.endereco_entrega.codigo_ibge_uf })
    } else if short < n {
        Err(OrderErrorView::InsufficientStock { sku: lines[short].sku_produto })
    } else if cart.pagamento.numero_parcelas == 0 {
        Err(OrderErrorView::InvalidInput { field: CartField::NumeroParcelas })
    } else if !order_representable(priced_order(cart, catalog, table[region->0], now)) {
        Err(OrderErrorView::InvalidInput { field: CartField::Valores })
    } else {
        Ok(priced_order(cart, catalog, table[region->0], now))
    }
}

/// Whether the line item `line` prices the cart line `asked` by `product`:
/// the product is there and has the stock for the line, the line item is for
/// the SKU and the quantity asked, its unit price is the product's, and its
/// gross amount is that price times the quantity.
pub open spec fn line_priced_by(
    line: ProdutoPayloadView,
    asked: CartLineView,
    product: Option<ProdutoView>,
) -> bool {
    &&& product is Some
    &&& line.sku_produto == asked.sku_produto
    &&& line.quantidade == asked.quantidade
    &&& line.quantidade <= product->0.estoque
    &&& line.valor_unitario == product->0.preco
    &&& line.valor_bruto == line.valor_unitario * line.quantidade
}

/// A priced order is priced by the catalog alone: it has the lines of the
/// cart, in order; each line's product is in the catalog and has the stock for
/// it; the unit price is the catalog's and the gross amount is unit price
/// times quantity; the order's gross amount and discount are the sums over its
/// lines, its freight is the table's, its net amount is gross less discount
/// plus freight, and its payment amounts to the net amount.
pub proof fn lemma_priced_by_catalog(
    cart: CartView,
    catalog: Seq<ProdutoView>,
    table: Map<int, int>,
    now: int,
)
    requires
        price_of(cart, catalog, table, now) is Ok,
    ensures
        ({
            let order = price_of(cart, catalog, table, now)->Ok_0;
            let region = region_code(cart.endereco_entrega.codigo_ibge_uf);
            &&& order_consistent(order)
            &&& region is Some
            &&& table.contains_key(region->0)
            &&& order.valor_frete == table[region->0]
            &&& order.produtos.len() == cart.produtos.len()
            &&& cart.produtos.len() > 0
            &&& forall|i: int|
                0 <= i < order.produtos.len() ==> line_priced_by(
                    #[trigger] order.produtos[i],
                    cart.produtos[i],
                    find_product(catalog, cart.produtos[i].sku_produto),
                )
        }),
{
    let n = cart.produtos.len() as int;
    lemma_first_such(n, line_missing(cart.produtos, catalog));
    lemma_first_such(n, line_short(cart.produtos, catalog));
    let order = price_of(cart, catalog, table, now)->Ok_0;
    assert forall|i: int| 0 <= i < order.produtos.len() implies line_priced_by(
        #[trigger] order.produtos[i],
        cart.produtos[i],
        find_product(catalog, cart.produtos[i].sku_produto),
    ) && line_consistent(order.produtos[i]) by {
        assert(!line_missing(cart.produtos, catalog)(i));
        assert(!line_short(cart.produtos, catalog)(i));
    }
}

/// A cart with a line whose SKU the catalog lacks is refused with
/// `ProductNotFound`: the error names the SKU of the first such line.
pub proof fn lemma_missing_product_is_refused(
    cart: CartView,
    catalog: Seq<ProdutoView>,
    table: Map<int, int>,
    now: int,
    i: int,
)
    requires
        0 <= i < cart.produtos.len(),
        find_product(catalog, cart.produtos[i].sku_produto) is None,
    ensures
        ({
            let first = first_such(
                cart.produtos.len() as int,
                line_missing(cart.produtos, catalog),
            );
            &&& 0 <= first <= i
            &&& find_product(catalog, cart.produtos[first].sku_produto) is None
            &&& price_of(cart, catalog, table, now) == Err::<PedidoPayloadView, OrderErrorView>(
                OrderErrorView::ProductNotFound { sku: cart.produtos[first].sku_produto },
            )
        }),
{
    let p = line_missing(cart.produtos, catalog);
    lemma_first_such(cart.produtos.len() as int, p);
    assert(p(i));
}

/// A cart whose products the catalog has, but whose regional code the freight
/// table lacks, is refused with `InvalidRegion`.
pub proof fn lemma_unknown_region_is_refused(
    cart: CartView,
    catalog: Seq<ProdutoView>,
    table: Map<int, int>,
    now: int,
)
    requires
        cart.produtos.len() > 0,
        forall|i: int|
            0 <= i < cart.produtos.len() ==> find_product(
                catalog,
                (#[trigger] cart.produtos[i]).sku_produto,
            ) is Some,
        match region_code(cart.endereco_entrega.codigo_ibge_uf) {
            Some(code) => !table.contains_key(code),
            None => true,
        },
    ensures
        price_of(cart, catalog, table, now) == Err::<PedidoPayloadView, OrderErrorView>(
            OrderErrorView::InvalidRegion { codigo: cart.endereco_entrega.codigo_ibge_uf },
        ),
{
    let p = line_missing(cart.produtos, catalog);
    lemma_first_such(cart.produtos.len() as int, p);
    let first = first_such(cart.produtos.len() as int, p);
    if first < cart.produtos.len() {
        assert(p(first));
        assert(find_product(catalog, cart.produtos[first].sku_produto) is Some);
    }
}

/// A cart whose products the catalog has and whose region the freight table
/// lists, but which asks for more units of a product than are in stock, is
/// refused with `InsufficientStock`: the error names the SKU of the first such
/// line.
pub proof fn lemma_short_stock_is_refused(
    cart: CartView,
    catalog: Seq<ProdutoView>,
    table: Map<int, int>,
    now: int,
    i: int,
)
    requires
        forall|k: int|
            0 <= k < cart.produtos.len() ==> find_product(
                catalog,
                (#[trigger] cart.produtos[k]).sku_produto,
            ) is Some,
        region_code(cart.endereco_entrega.codigo_ibge_uf) matches Some(code) && table.contains_key(
            code,
        ),
        0 <= i < cart.produtos.len(),
        cart.produtos[i].quantidade > find_product(
            catalog,
            cart.produtos[i].sku_produto,
        )->0.estoque,
    ensures
        ({
            let first = first_such(cart.produtos.len() as int, line_short(cart.produtos, catalog));
            &&& 0 <= first <= i
            &&& cart.produtos[first].quantidade > find_product(
                catalog,
                cart.produtos[first].sku_produto,
            )->0.estoque
            &&& price_of(cart, catalog, table, now) == Err::<PedidoPayloadView, OrderErrorView>(
                OrderErrorView::InsufficientStock { sku: cart.produtos[first].sku_produto },
            )
        }),
{
    let n = cart.produtos.len() as int;
    let missing = line_missing(cart.produtos, catalog);
    lemma_first_such(n, missing);
    let m = first_such(n, missing);
    if m < n {
        assert(missing(m));
        assert(find_product(catalog, cart.produtos[m].sku_produto) is Some);
    }
    let short = line_short(cart.produtos, catalog);
    lemma_first_such(n, short);
    assert(short(i));
    let first = first_such(n, short);
    assert(short(first));
}

/// Pricing the same cart against the same catalog and freight table gives the
/// same outcome whenever it is done: the same refusal, or orders that differ
/// in nothing but the day of delivery.
pub proof fn lemma_pricing_is_repeatable(
    cart: CartView,
    catalog: Seq<ProdutoView>,
    table: Map<int, int>,
    now: int,
    later: int,
)
    ensures
        match price_of(cart, catalog, table, now) {
            Ok(order) => price_of(cart, catalog, table, later) == Ok::<
                PedidoPayloadView,
                OrderErrorView,
            >(PedidoPayloadView { data_entrega: delivery_day(later), ..order }),
            Err(e) => price_of(cart, catalog, table, later) == Err::<
                PedidoPayloadView,
                OrderErrorView,
            >(e),
        },
{
    let region = region_code(cart.endereco_entrega.codigo_ibge_uf);
    if region is Some && table.contains_key(region->0) {
        let a = priced_order(cart, catalog, table[region->0], now);
        let b = priced_order(cart, catalog, table[region->0], later);
        assert(b == PedidoPayloadView { data_entrega: delivery_day(later), ..a });
        if order_representable(a) {
            assert forall|i: int| 0 <= i < b.produtos.len() implies (
            #[trigger] b.produtos[i]).representable() by {
                assert(a.produtos[i].representable());
            }
        }
        if order_representable(b) {
            assert forall|i: int| 0 <= i < a.produtos.len() implies (
            #[trigger] a.produtos[i]).representable() by {
                assert(b.produtos[i].representable());
            }
        }
    }
}

/// Pricing reads the catalog through `find_product` alone: two catalogs that
/// hold the same product for every SKU of the cart price the cart alike.
pub proof fn lemma_pricing_reads_the_cart_skus(
    cart: CartView,
    catalog: Seq<ProdutoView>,
    other: Seq<ProdutoView>,
    table: Map<int, int>,
    now: int,
)
    requires
        forall|i: int|
            0 <= i < cart.produtos.len() ==> find_product(
                catalog,
                (#[trigger] cart.produtos[i]).sku_produto,
            ) == find_product(other, cart.produtos[i].sku_produto),
    ensures
        price_of(cart, catalog, table, now) == price_of(cart, other, table, now),
{
    let lines = cart.produtos;
    let n = lines.len() as int;
    assert forall|i: int| 0 <= i < n implies #[trigger] line_missing(lines, catalog)(i)
        == line_missing(lines, other)(i) by {
        assert(find_product(catalog, lines[i].sku_produto) == find_product(
            other,
            lines[i].sku_produto,
        ));
    }
    lemma_first_such_agrees(n, line_missing(lines, catalog), line_missing(lines, other));
    assert forall|i: int| 0 <= i < n implies #[trigger] line_short(lines, catalog)(i)
        == line_short(lines, other)(i) by {
        assert(find_product(catalog, lines[i].sku_produto) == find_product(
            other,
            lines[i].sku_produto,
        ));
    }
    lemma_first_such_agrees(n, line_short(lines, catalog), line_short(lines, other));
    let region = region_code(cart.endereco_entrega.codigo_ibge_uf);
    if region is Some && table.contains_key(region->0) {
        let rate = cart.pagamento.porcentagem_desconto;
        let frete = table[region->0];
        assert(priced_lines(lines, catalog, rate, frete) =~= priced_lines(
            lines,
            other,
            rate,
            frete,
        )) by {
            assert forall|i: int| 0 <= i < n implies priced_lines(lines, catalog, rate, frete)[i]
                == priced_lines(lines, other, rate, frete)[i] by {
                assert(find_product(catalog, lines[i].sku_produto) == find_product(
                    other,
                    lines[i].sku_produto,
                ));
            }
        }
        assert(priced_order(cart, catalog, frete, now) == priced_order(cart, other, frete, now));
    }
}

/// The view of what `PedidoService::price` returns.
pub open spec fn price_result_view(r: Result<PedidoPayload, OrderError>) -> Result<
    PedidoPayloadView,
    OrderErrorView,
> {
    match r {
        Ok(order) => Ok(order@),
        Err(e) => Err(e@),
    }
}

/// Finds the catalog row for `sku`.
pub fn find_in_catalog(catalog: &Vec<Produto>, sku: &String) -> (found: Option<usize>)
    ensures
        match found {
            Some(i) => i < catalog.len() && find_product(seq_view(catalog@), sku@) == Some(
                catalog@[i as int]@,
            ),
            None => find_product(seq_view(catalog@), sku@) is None,
        },
{
    let ghost rows = seq_view(catalog@);
    let mut i: usize = catalog.len();
    proof {
        assert(rows.take(i as int) =~= rows);
    }
    while i > 0
        invariant
            i <= catalog.len(),
            rows == seq_view(catalog@),
            find_product(rows, sku@) == find_product(rows.take(i as int), sku@),
        decreases i,
    {
        i = i - 1;
        proof {
            assert(rows.take(i + 1).drop_last() =~= rows.take(i as int));
            assert(rows.take(i + 1).last() == catalog@[i as int]@);
        }
        if catalog[i].sku == *sku {
            return Some(i);
        }
    }
    proof {
        assert(rows.take(0).len() == 0);
    }
    None
}

/// The day that holds the instant `now`, counted from the epoch.
pub fn day_of(now: i64) -> (day: i64)
    ensures
        day == now as int / (SECONDS_PER_DAY as int),
{
    if now >= 0 {
        now / SECONDS_PER_DAY
    } else {
        -((-(now + 1)) / SECONDS_PER_DAY) - 1
    }
}

/// The order service: pricing, and the decisions of order creation.
pub struct PedidoService;

impl PedidoService {
    /// Checks that the amounts of a priced order agree with one another.
    pub fn is_consistent(order: &PedidoPayload) -> (consistent: bool)
        ensures
            consistent == order_consistent(order@),
    {
        let n = order.produtos.len();
        let ghost lines = order@.produtos;
        let mut bruto_total: i128 = 0;
        let mut desconto_total: i128 = 0;
        let mut i: usize = 0;
        proof {
            assert(lines.take(0) =~= Seq::empty());
        }
        while i < n
            invariant
                i <= n,
                n == order.produtos.len(),
                lines == seq_view(order.produtos@),
                bruto_total == total_bruto(lines.take(i as int)),
                desconto_total == total_desconto(lines.take(i as int)),
                -(i * 0x8000_0000_0000_0000) <= bruto_total <= i * 0x8000_0000_0000_0000,
                -(i * 0x8000_0000_0000_0000) <= desconto_total <= i * 0x8000_0000_0000_0000,
                forall|k: int| 0 <= k < i ==> line_consistent(#[trigger] lines[k]),
            decreases n - i,
        {
            let line = &order.produtos[i];
            let unit: i128 = line.valor_unitario as i128;
            let quantity: i128 = line.quantidade as i128;
            assert(-0x4000_0000_0000_0000_0000_0000 <= unit * quantity
                <= 0x4000_0000_0000_0000_0000_0000) by (nonlinear_arith)
                requires
                    -0x8000_0000_0000_0000 <= unit <= 0x8000_0000_0000_0000,
                    -0x8000_0000 <= quantity <= 0x8000_0000,
            ;
            proof {
                assert(lines[i as int] == line@);
            }
            if line.valor_bruto as i128 != unit * quantity || line.valor_liquido as i128
                != line.valor_bruto as i128 - line.valor_desconto as i128 {
                proof {
                    assert(!line_consistent(lines[i as int]));
                }
                return false;
            }
            proof {
                assert(lines.take(i + 1).drop_last() =~= lines.take(i as int));
                assert(lines.take(i + 1).last() == lines[i as int]);
            }
            bruto_total = bruto_total + line.valor_bruto as i128;
            desconto_total = desconto_total + line.valor_desconto as i128;
            i = i + 1;
        }
        proof {
            assert(lines.take(n as int) =~= lines);
        }
        bruto_total == order.valor_bruto as i128 && desconto_total == order.valor_desconto as i128
            && order.valor_liquido as i128 == order.valor_bruto as i128
            - order.valor_desconto as i128 + order.valor_frete as i128
            && order.pagamento.valor_total == order.valor_liquido
    }

    /// Validates `cart` against the catalog rows `catalog` and the freight
    /// table, and prices it as of the instant `now`. Nothing is stored and
    /// nothing is changed.
    #[verifier::loop_isolation(false)]
    pub fn price(cart: &Cart, catalog: &Vec<Produto>, table: &FreightTable, now: i64) -> (result:
        Result<PedidoPayload, OrderError>)
        ensures
            price_result_view(result) == price_of(
                cart@,
                seq_view(catalog@),
                table@,
                now as int,
            ),
    {
        let n = cart.produtos.len();
        let ghost lines = seq_view(cart.produtos@);
        let ghost rows = seq_view(catalog@);
        if n == 0 {
            return Err(OrderError::InvalidInput { field: CartField::Produtos });
        }
        let mut found: Vec<usize> = Vec::new();
        let mut i: usize = 0;
        while i < n
            invariant
                i <= n,
                n == cart.produtos.len(),
                lines == seq_view(cart.produtos@),
                rows == seq_view(catalog@),
                first_such(i as int, line_missing(lines, rows)) == i,
                found.len() == i,
                forall|k: int|
                    0 <= k < i ==> (#[trigger] found[k]) < catalog.len() && find_product(
                        rows,
                        lines[k].sku_produto,
                    ) == Some(catalog@[found[k] as int]@),
            decreases n - i,
        {
            match find_in_catalog(catalog, &cart.produtos[i].sku_produto) {
                None => {
                    proof {
                        assert(line_missing(lines, rows)(i as int));
                        lemma_first_such_stays(i + 1, n as int, line_missing(lines, rows));
                    }
                    return Err(
                        OrderError::ProductNotFound { sku: cart.produtos[i].sku_produto.clone() },
                    );
                },
                Some(j) => {
                    found.push(j);
                },
            }
            i = i + 1;
        }
        let frete: i64 = match parse_region_code(cart.endereco_entrega.codigo_ibge_uf.as_str()) {
            None => {
                return Err(
                    OrderError::InvalidRegion {
                        codigo: cart.endereco_entrega.codigo_ibge_uf.clone(),
                    },
                );
            },
            Some(code) => match table.get(code) {
                None => {
                    return Err(
                        OrderError::InvalidRegion {
                            codigo: cart.endereco_entrega.codigo_ibge_uf.clone(),
                        },
                    );
                },
                Some(f) => f,
            },
        };
        let ghost region = region_code(cart@.endereco_entrega.codigo_ibge_uf)->0;
        assert(table@.contains_key(region) && table@[region] == frete);
        i = 0;
        while i < n
            invariant
                i <= n,
                n == cart.produtos.len(),
                lines == seq_view(cart.produtos@),
                rows == seq_view(catalog@),
                first_such(i as int, line_short(lines, rows)) == i,
                found.len() == n,
                forall|k: int|
                    0 <= k < n ==> (#[trigger] found[k]) < catalog.len() && find_product(
                        rows,
                        lines[k].sku_produto,
                    ) == Some(catalog@[found[k] as int]@),
            decreases n - i,
        {
            if catalog[found[i]].estoque < cart.produtos[i].quantidade as i64 {
                proof {
                    assert(line_short(lines, rows)(i as int));
                    lemma_first_such_stays(i + 1, n as int, line_short(lines, rows));
                }
                return Err(
                    OrderError::InsufficientStock { sku: cart.produtos[i].sku_produto.clone() },
                );
            }
            proof {
                assert(!line_short(lines, rows)(i as int));
            }
            i = i + 1;
        }
        if cart.pagamento.numero_parcelas == 0 {
            return Err(OrderError::InvalidInput { field: CartField::NumeroParcelas });
        }
        let rate = cart.pagamento.porcentagem_desconto;
        let ghost order = priced_order(cart@, rows, frete as int, now as int);
        let ghost target = priced_lines(lines, rows, rate as int, frete as int);
        assert(order.produtos == target);
        let share = rounded(frete as i128, n as i128);
        if share < i64::MIN as i128 || share > i64::MAX as i128 {
            proof {
                assert(!target[0].representable());
            }
            return Err(OrderError::InvalidInput { field: CartField::Valores });
        }
        let mut produtos: Vec<ProdutoPayload> = Vec::new();
        let mut bruto_total: i128 = 0;
        let mut desconto_total: i128 = 0;
        i = 0;
        proof {
            assert(target.take(0) =~= Seq::empty());
        }
        while i < n
            invariant
                i <= n,
                n == cart.produtos.len(),
                lines == seq_view(cart.produtos@),
                rows == seq_view(catalog@),
                order == priced_order(cart@, rows, frete as int, now as int),
                target == priced_lines(lines, rows, rate as int, frete as int),
                order.produtos == target,
                rate == cart.pagamento.porcentagem_desconto,
                share == round_div(frete as int, n as int),
                i64::MIN <= share <= i64::MAX,
                found.len() == n,
                forall|k: int|
                    0 <= k < n ==> (#[trigger] found[k]) < catalog.len() && find_product(
                        rows,
                        lines[k].sku_produto,
                    ) == Some(catalog@[found[k] as int]@),
                produtos.len() == i,
                seq_view(produtos@) == target.take(i as int),
                bruto_total == total_bruto(target.take(i as int)),
                desconto_total == total_desconto(target.take(i as int)),
                -(i * 0x8000_0000_0000_0000) <= bruto_total <= i * 0x8000_0000_0000_0000,
                -(i * 0x8000_0000_0000_0000) <= desconto_total <= i * 0x8000_0000_0000_0000,
                forall|k: int| 0 <= k < i ==> (#[trigger] target[k]).representable(),
            decreases n - i,
        {
            let line = &cart.produtos[i];
            let product = &catalog[found[i]];
            let preco: i128 = product.preco as i128;
            let quantidade: i128 = line.quantidade as i128;
            assert(-0x4000_0000_0000_0000_0000_0000 <= preco * quantidade
                <= 0x4000_0000_0000_0000_0000_0000) by (nonlinear_arith)
                requires
                    -0x8000_0000_0000_0000 <= preco <= 0x8000_0000_0000_0000,
                    -0x8000_0000 <= quantidade <= 0x8000_0000,
            ;
            let bruto: i128 = preco * quantidade;
            assert(target[i as int] == priced_line(
                lines[i as int],
                product.preco as int,
                rate as int,
                share as int,
            ));
            if bruto < i64::MIN as i128 || bruto > i64::MAX as i128 {
                proof {
                    assert(!target[i as int].representable());
                }
                return Err(OrderError::InvalidInput { field: CartField::Valores });
            }
            let desconto: i128 = if rate > 0 {
                let taxa: i128 = rate as i128;
                assert(-0x4000_0000_0000_0000_0000_0000 <= bruto * taxa
                    <= 0x4000_0000_0000_0000_0000_0000) by (nonlinear_arith)
                    requires
                        -0x8000_0000_0000_0000 <= bruto <= 0x8000_0000_0000_0000,
                        -0x8000_0000 <= taxa <= 0x8000_0000,
                ;
                rounded(bruto * taxa, 10_000)
            } else {
                0
            };
            if desconto < i64::MIN as i128 || desconto > i64::MAX as i128 {
                proof {
                    assert(!target[i as int].representable());
                }
                return Err(OrderError::InvalidInput { field: CartField::Valores });
            }
            let liquido: i128 = bruto - desconto;
            if liquido < i64::MIN as i128 || liquido > i64::MAX as i128 {
                proof {
                    assert(!target[i as int].representable());
                }
                return Err(OrderError::InvalidInput { field: CartField::Valores });
            }
            let priced = ProdutoPayload {
                sku_produto: line.sku_produto.clone(),
                quantidade: line.quantidade,
                valor_unitario: product.preco,
                valor_bruto: bruto as i64,
                valor_desconto: desconto as i64,
                valor_liquido: liquido as i64,
                valor_frete: share as i64,
            };
            proof {
                assert(priced@ == target[i as int]);
                assert(target.take(i + 1).drop_last() =~= target.take(i as int));
                assert(target.take(i + 1).last() == target[i as int]);
                assert(seq_view(produtos@.push(priced)) =~= target.take(i + 1));
            }
            produtos.push(priced);
            bruto_total = bruto_total + bruto;
            desconto_total = desconto_total + desconto;
            i = i + 1;
        }
        proof {
            assert(target.take(n as int) =~= target);
        }
        if bruto_total < i64::MIN as i128 || bruto_total > i64::MAX as i128 {
            return Err(OrderError::InvalidInput { field: CartField::Valores });
        }
        if desconto_total < i64::MIN as i128 || desconto_total > i64::MAX as i128 {
            return Err(OrderError::InvalidInput { field: CartField::Valores });
        }
        let liquido_total: i128 = bruto_total - desconto_total + frete as i128;
        if liquido_total < i64::MIN as i128 || liquido_total > i64::MAX as i128 {
            return Err(OrderError::InvalidInput { field: CartField::Valores });
        }
        let parcela = rounded(liquido_total, cart.pagamento.numero_parcelas as i128);
        if parcela < i64::MIN as i128 || parcela > i64::MAX as i128 {
            return Err(OrderError::InvalidInput { field: CartField::Valores });
        }
        let priced_cart = PedidoPayload {
            id_cliente: cart.id_cliente.clone(),
            valor_bruto: bruto_total as i64,
            valor_desconto: desconto_total as i64,
            valor_frete: frete,
            valor_liquido: liquido_total as i64,
            data_entrega: day_of(now) + DELIVERY_DAYS,
            endereco_entrega: cart.endereco_entrega.clone(),
            pagamento: PagamentoPayload {
                forma_pagamento: cart.pagamento.forma_pagamento.clone(),
                numero_parcelas: cart.pagamento.numero_parcelas,
                valor_total: liquido_total as i64,
                valor_parcela: parcela as i64,
            },
            produtos,
        };
        proof {
            assert(order_representable(order));
            assert(priced_cart@ == order);
        }
        Ok(priced_cart)
    }
}

} // verus!
