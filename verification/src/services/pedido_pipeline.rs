//! The creation of an order, step by step.
//!
//! Creating an order alternates decisions with work on the database: read the
//! catalog, store the order, adjust the inventory line by line. The decisions
//! are here, as a function from the stage reached and the outcome of the work
//! to the next stage and the next piece of work. The caller does the work.
//!
//! Validation comes first, then storing, then the inventory. The inventory is
//! adjusted after the order is stored and apart from it: an adjustment that
//! fails leaves the order stored and the adjustments already made in place,
//! and nothing between validation and adjustment holds the stock still.

use crate::dal::pedido_dal::{OrderIds, OrderIdsView, PedidoDal};
use crate::models::pedido::{Cart, CartView, PlacedOrder, PlacedOrderView};
use crate::models::produto::{seq_view, Produto, ProdutoView};
use crate::services::pedido_service::{
    find_product, lemma_priced_by_catalog, line_priced_by, price_of, total_bruto, total_desconto,
    PedidoService,
};
use crate::utils::app_message::{CartField, OrderError, OrderErrorView};
use crate::utils::clock::utc_now_seconds;
use crate::utils::tabela_frete::FreightTable;
use vstd::prelude::*;

verus! {

/// How far the creation of an order has come.
pub enum OrderStage {
    /// The cart waits for its products to be read from the catalog.
    AwaitingCatalog { cart: Cart, ids: OrderIds, submitted_at: i64 },
    /// The order is priced and waits to be stored.
    AwaitingPersistence { placed: PlacedOrder },
    /// The order is stored; line `line` waits for its stock to be reduced or,
    /// if `counting_sale`, for its sale to be counted.
    Reconciling { placed: PlacedOrder, line: usize, counting_sale: bool },
    /// The order is stored and the work is over. `failure` tells whether the
    /// inventory was left unadjusted from some line on.
    Placed { placed: PlacedOrder, failure: Option<OrderError> },
    /// No order was stored.
    Refused { error: OrderError },
}

/// What an `OrderStage` stands for.
pub ghost enum OrderStageView {
    AwaitingCatalog { cart: CartView, ids: OrderIdsView, submitted_at: int },
    AwaitingPersistence { placed: PlacedOrderView },
    Reconciling { placed: PlacedOrderView, line: int, counting_sale: bool },
    Placed { placed: PlacedOrderView, failure: Option<OrderErrorView> },
    Refused { error: OrderErrorView },
}

impl View for OrderStage {
    type V = OrderStageView;

    open spec fn view(&self) -> OrderStageView {
        match *self {
            OrderStage::AwaitingCatalog { cart, ids, submitted_at } => {
                OrderStageView::AwaitingCatalog {
                    cart: cart@,
                    ids: ids@,
                    submitted_at: submitted_at as int,
                }
            },
            OrderStage::AwaitingPersistence { placed } => OrderStageView::AwaitingPersistence {
                placed: placed@,
            },
            OrderStage::Reconciling { placed, line, counting_sale } => OrderStageView::Reconciling {
                placed: placed@,
                line: line as int,
                counting_sale,
            },
            OrderStage::Placed { placed, failure } => OrderStageView::Placed {
                placed: placed@,
                failure: match failure {
                    Some(e) => Some(e@),
                    None => None,
                },
            },
            OrderStage::Refused { error } => OrderStageView::Refused { error: error@ },
        }
    }
}

/// How the work that a stage asked for has ended.
pub enum OrderEvent {
    /// The catalog was read: these are the rows of the SKUs asked for.
    CatalogFetched { produtos: Vec<Produto> },
    /// The order was stored, all of it.
    Persisted,
    /// The inventory was adjusted as asked.
    Adjusted,
    /// The work failed; as far as it was storing, nothing was stored.
    Failed,
    /// No database handle could be acquired for the work.
    Unavailable,
}

/// What an `OrderEvent` stands for.
pub ghost enum OrderEventView {
    CatalogFetched { produtos: Seq<ProdutoView> },
    Persisted,
    Adjusted,
    Failed,
    Unavailable,
}

impl View for OrderEvent {
    type V = OrderEventView;

    open spec fn view(&self) -> OrderEventView {
        match *self {
            OrderEvent::CatalogFetched { produtos } => OrderEventView::CatalogFetched {
                produtos: seq_view(produtos@),
            },
            OrderEvent::Persisted => OrderEventView::Persisted,
            OrderEvent::Adjusted => OrderEventView::Adjusted,
            OrderEvent::Failed => OrderEventView::Failed,
            OrderEvent::Unavailable => OrderEventView::Unavailable,
        }
    }
}

/// The work that a stage asks of the caller.
pub enum OrderAction {
    /// Read from the catalog, in one query, the products with these SKUs.
    FetchCatalog { skus: Vec<String> },
    /// Store the order of the stage, all of it or nothing.
    Persist,
    /// Add `delta` to the stock of the product `sku`.
    AdjustStock { sku: String, delta: i64 },
    /// Add `delta` to the sales counter of the product `sku`.
    AdjustSales { sku: String, delta: i64 },
    /// Nothing is left to do.
    Finish,
}

/// What an `OrderAction` stands for.
pub ghost enum OrderActionView {
    FetchCatalog { skus: Seq<Seq<char>> },
    Persist,
    AdjustStock { sku: Seq<char>, delta: int },
    AdjustSales { sku: Seq<char>, delta: int },
    Finish,
}

impl View for OrderAction {
    type V = OrderActionView;

    open spec fn view(&self) -> OrderActionView {
        match *self {
            OrderAction::FetchCatalog { skus } => OrderActionView::FetchCatalog {
                skus: seq_view(skus@),
            },
            OrderAction::Persist => OrderActionView::Persist,
            OrderAction::AdjustStock { sku, delta } => OrderActionView::AdjustStock {
                sku: sku@,
                delta: delta as int,
            },
            OrderAction::AdjustSales { sku, delta } => OrderActionView::AdjustSales {
                sku: sku@,
                delta: delta as int,
            },
            OrderAction::Finish => OrderActionView::Finish,
        }
    }
}

/// A stage together with the work it asks for.
pub struct OrderStep {
    pub stage: OrderStage,
    pub action: OrderAction,
}

/// What an `OrderStep` stands for.
pub ghost struct OrderStepView {
    pub stage: OrderStageView,
    pub action: OrderActionView,
}

impl View for OrderStep {
    type V = OrderStepView;

    open spec fn view(&self) -> OrderStepView {
        OrderStepView { stage: self.stage@, action: self.action@ }
    }
}

/// The work that `stage` asks for: for a line of a stored order, first the
/// stock is reduced by the quantity of the line, then its sales counter is
/// raised by the same quantity.
pub open spec fn pending_action(stage: OrderStageView) -> OrderActionView {
    match stage {
        OrderStageView::AwaitingCatalog { cart, .. } => OrderActionView::FetchCatalog {
            skus: Seq::new(cart.produtos.len(), |i: int| cart.produtos[i].sku_produto),
        },
        OrderStageView::AwaitingPersistence { .. } => OrderActionView::Persist,
        OrderStageView::Reconciling { placed, line, counting_sale } => {
            if 0 <= line < placed.produtos.len() {
                let item = placed.produtos[line].linha;
                if counting_sale {
                    OrderActionView::AdjustSales { sku: item.sku_produto, delta: item.quantidade }
                } else {
                    OrderActionView::AdjustStock { sku: item.sku_produto, delta: -item.quantidade }
                }
            } else {
                OrderActionView::Finish
            }
        },
        OrderStageView::Placed { .. } => OrderActionView::Finish,
        OrderStageView::Refused { .. } => OrderActionView::Finish,
    }
}

/// The step that begins at `stage`.
pub open spec fn step_at(stage: OrderStageView) -> OrderStepView {
    OrderStepView { stage, action: pending_action(stage) }
}

/// The stage of a stored order whose lines before `line` are reconciled.
pub open spec fn reconciling_from(placed: PlacedOrderView, line: int) -> OrderStageView {
    if 0 <= line < placed.produtos.len() {
        OrderStageView::Reconciling { placed, line, counting_sale: false }
    } else {
        OrderStageView::Placed { placed, failure: None }
    }
}

/// The first step for a cart submitted at `submitted_at`, whose records are
/// to be stored under `ids`: an empty cart is refused at once.
pub open spec fn started(cart: CartView, ids: OrderIdsView, submitted_at: int) -> OrderStepView {
    if cart.produtos.len() == 0 {
        step_at(
            OrderStageView::Refused {
                error: OrderErrorView::InvalidInput { field: CartField::Produtos },
            },
        )
    } else {
        step_at(OrderStageView::AwaitingCatalog { cart, ids, submitted_at })
    }
}

/// The step that follows `stage` when its work has ended with `event`. An
/// event that the stage did not ask for changes nothing.
pub open spec fn advanced(
    stage: OrderStageView,
    event: OrderEventView,
    table: Map<int, int>,
) -> OrderStepView {
    match stage {
        OrderStageView::AwaitingCatalog { cart, ids, submitted_at } => match event {
            OrderEventView::CatalogFetched { produtos } => match price_of(
                cart,
                produtos,
                table,
                submitted_at,
            ) {
                Err(error) => step_at(OrderStageView::Refused { error }),
                Ok(order) => if ids.produtos.len() == order.produtos.len() {
                    step_at(
                        OrderStageView::AwaitingPersistence {
                            placed: PedidoDal::composed(order, ids, submitted_at),
                        },
                    )
                } else {
                    step_at(OrderStageView::Refused { error: OrderErrorView::PersistenceFailure })
                },
            },
            OrderEventView::Failed | OrderEventView::Unavailable => step_at(
                OrderStageView::Refused { error: OrderErrorView::ResourceUnavailable },
            ),
            _ => step_at(stage),
        },
        OrderStageView::AwaitingPersistence { placed } => match event {
            OrderEventView::Persisted => step_at(reconciling_from(placed, 0)),
            OrderEventView::Failed => step_at(
                OrderStageView::Refused { error: OrderErrorView::PersistenceFailure },
            ),
            OrderEventView::Unavailable => step_at(
                OrderStageView::Refused { error: OrderErrorView::ResourceUnavailable },
            ),
            _ => step_at(stage),
        },
        OrderStageView::Reconciling { placed, line, counting_sale } => {
            if 0 <= line < placed.produtos.len() {
                match event {
                    OrderEventView::Adjusted => if counting_sale {
                        step_at(reconciling_from(placed, line + 1))
                    } else {
                        step_at(OrderStageView::Reconciling { placed, line, counting_sale: true })
                    },
                    OrderEventView::Failed | OrderEventView::Unavailable => step_at(
                        OrderStageView::Placed {
                            placed,
                            failure: Some(
                                OrderErrorView::ReconciliationFailure {
                                    sku: placed.produtos[line].linha.sku_produto,
                                },
                            ),
                        },
                    ),
                    _ => step_at(stage),
                }
            } else {
                step_at(OrderStageView::Placed { placed, failure: None })
            }
        },
        OrderStageView::Placed { .. } => step_at(stage),
        OrderStageView::Refused { .. } => step_at(stage),
    }
}

/// A cart that validation refuses is never stored: where the step after the
/// catalog was read asks to store an order, the cart priced without error and
/// the order is the priced cart's; otherwise the creation ends there, with the
/// error of the pricing if there was one.
pub proof fn lemma_only_priced_carts_are_stored(
    cart: CartView,
    ids: OrderIdsView,
    submitted_at: int,
    event: OrderEventView,
    table: Map<int, int>,
)
    ensures
        ({
            let stage = OrderStageView::AwaitingCatalog { cart, ids, submitted_at };
            let next = advanced(stage, event, table);
            &&& !(next.action is AdjustStock) && !(next.action is AdjustSales)
            &&& match event {
                OrderEventView::CatalogFetched { produtos } => match price_of(
                    cart,
                    produtos,
                    table,
                    submitted_at,
                ) {
                    Ok(order) => next.action is Persist ==> next.stage
                        == (OrderStageView::AwaitingPersistence {
                        placed: PedidoDal::composed(order, ids, submitted_at),
                    }),
                    Err(error) => next == step_at(OrderStageView::Refused { error }),
                },
                _ => !(next.action is Persist),
            }
        }),
{
}

/// The order that is stored is priced by the catalog: its net amount is its
/// gross amount less its discount plus its freight; its gross amount is the
/// sum over its line items of unit price times quantity, with the unit price
/// that the catalog read holds for the SKU of the line; and no line asks for
/// more units than that catalog read has in stock.
pub proof fn lemma_stored_order_is_priced_by_the_catalog(
    cart: CartView,
    ids: OrderIdsView,
    submitted_at: int,
    produtos: Seq<ProdutoView>,
    table: Map<int, int>,
)
    requires
        advanced(
            OrderStageView::AwaitingCatalog { cart, ids, submitted_at },
            OrderEventView::CatalogFetched { produtos },
            table,
        ).action is Persist,
    ensures
        ({
            let next = advanced(
                OrderStageView::AwaitingCatalog { cart, ids, submitted_at },
                OrderEventView::CatalogFetched { produtos },
                table,
            );
            let placed = next.stage->AwaitingPersistence_placed;
            let lines = Seq::new(placed.produtos.len(), |i: int| placed.produtos[i].linha);
            &&& next.stage is AwaitingPersistence
            &&& placed.pedido.valor_liquido == placed.pedido.valor_bruto
                - placed.pedido.valor_desconto + placed.pedido.valor_frete
            &&& placed.pedido.valor_bruto == total_bruto(lines)
            &&& placed.pedido.valor_desconto == total_desconto(lines)
            &&& placed.pagamentos.valor_total == placed.pedido.valor_liquido
            &&& placed.produtos.len() == cart.produtos.len()
            &&& forall|i: int|
                0 <= i < placed.produtos.len() ==> line_priced_by(
                    (#[trigger] placed.produtos[i]).linha,
                    cart.produtos[i],
                    find_product(produtos, cart.produtos[i].sku_produto),
                )
        }),
{
    lemma_priced_by_catalog(cart, produtos, table, submitted_at);
    let order = price_of(cart, produtos, table, submitted_at)->Ok_0;
    let next = advanced(
        OrderStageView::AwaitingCatalog { cart, ids, submitted_at },
        OrderEventView::CatalogFetched { produtos },
        table,
    );
    assert(next.stage == (OrderStageView::AwaitingPersistence {
        placed: PedidoDal::composed(order, ids, submitted_at),
    }));
    let placed = next.stage->AwaitingPersistence_placed;
    let lines = Seq::new(placed.produtos.len(), |i: int| placed.produtos[i].linha);
    assert(lines =~= order.produtos);
    assert forall|i: int| 0 <= i < placed.produtos.len() implies line_priced_by(
        (#[trigger] placed.produtos[i]).linha,
        cart.produtos[i],
        find_product(produtos, cart.produtos[i].sku_produto),
    ) by {
        assert(placed.produtos[i].linha == order.produtos[i]);
    }
}

/// The inventory is touched only for a stored order, and only as its lines
/// say: a step that asks for an adjustment is at a line of the stored order,
/// names the SKU of that line, and asks to lower the stock by the quantity of
/// the line or to raise the sales counter by it.
pub proof fn lemma_adjustments_follow_the_lines(stage: OrderStageView)
    ensures
        match pending_action(stage) {
            OrderActionView::AdjustStock { sku, delta } => match stage {
                OrderStageView::Reconciling { placed, line, counting_sale } => {
                    &&& 0 <= line < placed.produtos.len()
                    &&& !counting_sale
                    &&& sku == placed.produtos[line].linha.sku_produto
                    &&& delta == -placed.produtos[line].linha.quantidade
                },
                _ => false,
            },
            OrderActionView::AdjustSales { sku, delta } => match stage {
                OrderStageView::Reconciling { placed, line, counting_sale } => {
                    &&& 0 <= line < placed.produtos.len()
                    &&& counting_sale
                    &&& sku == placed.produtos[line].linha.sku_produto
                    &&& delta == placed.produtos[line].linha.quantidade
                },
                _ => false,
            },
            _ => true,
        },
{
}

/// An adjustment that fails neither undoes the order nor is tried again: the
/// order counts as placed, with the failure naming the SKU of the line.
pub proof fn lemma_failed_adjustment_keeps_the_order(
    placed: PlacedOrderView,
    line: int,
    counting_sale: bool,
    table: Map<int, int>,
)
    requires
        0 <= line < placed.produtos.len(),
    ensures
        advanced(
            OrderStageView::Reconciling { placed, line, counting_sale },
            OrderEventView::Failed,
            table,
        ) == step_at(
            OrderStageView::Placed {
                placed,
                failure: Some(
                    OrderErrorView::ReconciliationFailure {
                        sku: placed.produtos[line].linha.sku_produto,
                    },
                ),
            },
        ),
{
}

/// The work that `stage` asks for.
pub fn action_for(stage: &OrderStage) -> (action: OrderAction)
    ensures
        action@ == pending_action(stage@),
{
    match stage {
        OrderStage::AwaitingCatalog { cart, .. } => {
            let n = cart.produtos.len();
            let mut skus: Vec<String> = Vec::new();
            let mut i: usize = 0;
            while i < n
                invariant
                    i <= n,
                    n == cart.produtos.len(),
                    skus.len() == i,
                    forall|k: int|
                        0 <= k < i ==> (#[trigger] skus@[k])@ == cart.produtos@[k].sku_produto@,
                decreases n - i,
            {
                skus.push(cart.produtos[i].sku_produto.clone());
                i = i + 1;
            }
            proof {
                assert(seq_view(skus@) =~= Seq::new(
                    cart@.produtos.len(),
                    |i: int| cart@.produtos[i].sku_produto,
                ));
            }
            OrderAction::FetchCatalog { skus }
        },
        OrderStage::AwaitingPersistence { .. } => OrderAction::Persist,
        OrderStage::Reconciling { placed, line, counting_sale } => {
            if *line < placed.produtos.len() {
                let item = &placed.produtos[*line];
                if *counting_sale {
                    OrderAction::AdjustSales {
                        sku: item.sku_produto.clone(),
                        delta: item.quantidade as i64,
                    }
                } else {
                    OrderAction::AdjustStock {
                        sku: item.sku_produto.clone(),
                        delta: -(item.quantidade as i64),
                    }
                }
            } else {
                OrderAction::Finish
            }
        },
        OrderStage::Placed { .. } => OrderAction::Finish,
        OrderStage::Refused { .. } => OrderAction::Finish,
    }
}

/// The step that begins at `stage`.
pub fn step_from(stage: OrderStage) -> (step: OrderStep)
    ensures
        step@ == step_at(stage@),
{
    let action = action_for(&stage);
    OrderStep { stage, action }
}

/// The stage of a stored order whose lines before `line` are reconciled.
fn reconcile_from(placed: PlacedOrder, line: usize) -> (stage: OrderStage)
    ensures
        stage@ == reconciling_from(placed@, line as int),
{
    if line < placed.produtos.len() {
        OrderStage::Reconciling { placed, line, counting_sale: false }
    } else {
        OrderStage::Placed { placed, failure: None }
    }
}

impl PedidoService {
    /// Begins the creation of an order for `cart`, submitted at
    /// `submitted_at`, whose records are to be stored under `ids`.
    pub fn start(cart: Cart, ids: OrderIds, submitted_at: i64) -> (step: OrderStep)
        ensures
            step@ == started(cart@, ids@, submitted_at as int),
    {
        if cart.produtos.len() == 0 {
            step_from(
                OrderStage::Refused {
                    error: OrderError::InvalidInput { field: CartField::Produtos },
                },
            )
        } else {
            step_from(OrderStage::AwaitingCatalog { cart, ids, submitted_at })
        }
    }

    /// Begins the creation of an order for `cart`, submitted now, and draws
    /// the identifiers of its records. Which instant and which identifiers is
    /// not determined; everything else is.
    pub fn create(cart: Cart) -> (step: OrderStep)
        ensures
            match step.stage {
                OrderStage::AwaitingCatalog { ids, submitted_at, .. } => {
                    &&& step@ == started(cart@, ids@, submitted_at as int)
                    &&& ids@.well_formed()
                    &&& ids.produtos.len() == cart.produtos.len()
                },
                _ => cart.produtos.len() == 0 && step@ == step_at(
                    OrderStageView::Refused {
                        error: OrderErrorView::InvalidInput { field: CartField::Produtos },
                    },
                ),
            },
    {
        let ids = PedidoDal::fresh_ids(cart.produtos.len());
        let submitted_at = utc_now_seconds();
        Self::start(cart, ids, submitted_at)
    }

    /// Decides what follows `stage` now that its work has ended with `event`.
    pub fn advance(stage: OrderStage, event: OrderEvent, table: &FreightTable) -> (step: OrderStep)
        ensures
            step@ == advanced(stage@, event@, table@),
    {
        match stage {
            OrderStage::AwaitingCatalog { cart, ids, submitted_at } => match event {
                OrderEvent::CatalogFetched { produtos } => {
                    let priced = Self::price(&cart, &produtos, table, submitted_at);
                    match priced {
                        Err(error) => step_from(OrderStage::Refused { error }),
                        Ok(order) => match PedidoDal::compose(&order, ids, submitted_at) {
                            Some(placed) => step_from(OrderStage::AwaitingPersistence { placed }),
                            None => step_from(
                                OrderStage::Refused { error: OrderError::PersistenceFailure },
                            ),
                        },
                    }
                },
                OrderEvent::Failed | OrderEvent::Unavailable => step_from(
                    OrderStage::Refused { error: OrderError::ResourceUnavailable },
                ),
                _ => step_from(OrderStage::AwaitingCatalog { cart, ids, submitted_at }),
            },
            OrderStage::AwaitingPersistence { placed } => match event {
                OrderEvent::Persisted => step_from(reconcile_from(placed, 0)),
                OrderEvent::Failed => step_from(
                    OrderStage::Refused { error: OrderError::PersistenceFailure },
                ),
                OrderEvent::Unavailable => step_from(
                    OrderStage::Refused { error: OrderError::ResourceUnavailable },
                ),
                _ => step_from(OrderStage::AwaitingPersistence { placed }),
            },
            OrderStage::Reconciling { placed, line, counting_sale } => {
                if line < placed.produtos.len() {
                    match event {
                        OrderEvent::Adjusted => if counting_sale {
                            step_from(reconcile_from(placed, line + 1))
                        } else {
                            step_from(
                                OrderStage::Reconciling { placed, line, counting_sale: true },
                            )
                        },
                        OrderEvent::Failed | OrderEvent::Unavailable => {
                            let sku = placed.produtos[line].sku_produto.clone();
                            step_from(
                                OrderStage::Placed {
                                    placed,
                                    failure: Some(OrderError::ReconciliationFailure { sku }),
                                },
                            )
                        },
                        _ => step_from(OrderStage::Reconciling { placed, line, counting_sale }),
                    }
                } else {
                    step_from(OrderStage::Placed { placed, failure: None })
                }
            },
            OrderStage::Placed { placed, failure } => step_from(
                OrderStage::Placed { placed, failure },
            ),
            OrderStage::Refused { error } => step_from(OrderStage::Refused { error }),
        }
    }
}

} // verus!
