//! The inventory: the products of the catalog with their stock and their
//! sales counters.
//!
//! Stock is not guarded: an adjustment is applied whatever the stock then
//! is, so two orders that each passed validation on the last unit of a
//! product both reduce its stock, which then falls below zero.

use crate::models::pedido::{CartView, ProdutosPedido, ProdutosPedidoView};
use crate::models::produto::{seq_view, Produto, ProdutoView};
use crate::services::pedido_service::{
    find_in_catalog, find_product, lemma_find_product, lemma_pricing_reads_the_cart_skus, price_of,
};
use crate::utils::app_message::{OrderError, OrderErrorView};
use vstd::prelude::*;

verus! {

/// Whether the SKU of a product is one of `skus`.
pub open spec fn sku_among(skus: Seq<Seq<char>>) -> spec_fn(ProdutoView) -> bool {
    |p: ProdutoView| skus.contains(p.sku)
}

/// One query for a set of SKUs finds, for each SKU of the set, the product
/// that the whole inventory holds for it, and finds nothing for any other.
pub proof fn lemma_query_finds_what_the_inventory_holds(
    rows: Seq<ProdutoView>,
    skus: Seq<Seq<char>>,
    sku: Seq<char>,
)
    ensures
        find_product(rows.filter(sku_among(skus)), sku) == if skus.contains(sku) {
            find_product(rows, sku)
        } else {
            None
        },
    decreases rows.len(),
{
    reveal(Seq::filter);
    if rows.len() > 0 {
        lemma_query_finds_what_the_inventory_holds(rows.drop_last(), skus, sku);
        let kept = rows.drop_last().filter(sku_among(skus));
        if sku_among(skus)(rows.last()) {
            assert(rows.filter(sku_among(skus)) == kept.push(rows.last()));
            assert(kept.push(rows.last()).drop_last() =~= kept);
        }
    }
}

/// Pricing a cart against the rows that one query finds for its SKUs is
/// pricing it against the whole inventory.
pub proof fn lemma_pricing_needs_one_query(
    cart: CartView,
    rows: Seq<ProdutoView>,
    table: Map<int, int>,
    now: int,
)
    ensures
        ({
            let skus = Seq::new(cart.produtos.len(), |i: int| cart.produtos[i].sku_produto);
            price_of(cart, rows.filter(sku_among(skus)), table, now) == price_of(
                cart,
                rows,
                table,
                now,
            )
        }),
{
    let skus = Seq::new(cart.produtos.len(), |i: int| cart.produtos[i].sku_produto);
    assert forall|i: int| 0 <= i < cart.produtos.len() implies find_product(
        rows.filter(sku_among(skus)),
        (#[trigger] cart.produtos[i]).sku_produto,
    ) == find_product(rows, cart.produtos[i].sku_produto) by {
        lemma_query_finds_what_the_inventory_holds(rows, skus, cart.produtos[i].sku_produto);
        assert(skus[i] == cart.produtos[i].sku_produto);
    }
    lemma_pricing_reads_the_cart_skus(cart, rows.filter(sku_among(skus)), rows, table, now);
}

/// Adds `delta` to the stock of the product `sku`, and leaves every other
/// product as it is.
pub open spec fn add_to_stock(sku: Seq<char>, delta: int) -> spec_fn(ProdutoView) -> ProdutoView {
    |p: ProdutoView|
        if p.sku == sku {
            ProdutoView { estoque: p.estoque + delta, ..p }
        } else {
            p
        }
}

/// Adds `delta` to the sales counter of the product `sku`, and leaves every
/// other product as it is.
pub open spec fn add_to_sales(sku: Seq<char>, delta: int) -> spec_fn(ProdutoView) -> ProdutoView {
    |p: ProdutoView|
        if p.sku == sku {
            ProdutoView { qtdvendas: p.qtdvendas + delta, ..p }
        } else {
            p
        }
}

/// Whether `delta` can be added to the stock of `sku`: some product has the
/// SKU, and the new stock of each that has it fits its record.
pub open spec fn can_add_to_stock(rows: Seq<ProdutoView>, sku: Seq<char>, delta: int) -> bool {
    &&& find_product(rows, sku) is Some
    &&& forall|k: int|
        0 <= k < rows.len() && (#[trigger] rows[k]).sku == sku ==> i64::MIN <= rows[k].estoque
            + delta <= i64::MAX
}

/// Whether `delta` can be added to the sales counter of `sku`: some product
/// has the SKU, and the new count of each that has it fits its record.
pub open spec fn can_add_to_sales(rows: Seq<ProdutoView>, sku: Seq<char>, delta: int) -> bool {
    &&& find_product(rows, sku) is Some
    &&& forall|k: int|
        0 <= k < rows.len() && (#[trigger] rows[k]).sku == sku ==> i32::MIN <= rows[k].qtdvendas
            + delta <= i32::MAX
}

/// The inventory after the line items `lines` of a stored order were
/// reconciled with it, and the SKU of the line at which reconciliation
/// failed, if it did. Line by line, the stock of the product is reduced by
/// the quantity of the line, then its sales counter is raised by the same
/// quantity. The first adjustment that cannot be made ends the
/// reconciliation: what was adjusted before stays adjusted.
pub open spec fn reconciled(rows: Seq<ProdutoView>, lines: Seq<ProdutosPedidoView>) -> (
    Seq<ProdutoView>,
    Option<Seq<char>>,
)
    decreases lines.len(),
{
    if lines.len() == 0 {
        (rows, None)
    } else {
        let line = lines[0].linha;
        let reduced = rows.map_values(add_to_stock(line.sku_produto, -line.quantidade));
        let counted = reduced.map_values(add_to_sales(line.sku_produto, line.quantidade));
        if !can_add_to_stock(rows, line.sku_produto, -line.quantidade) {
            (rows, Some(line.sku_produto))
        } else if !can_add_to_sales(reduced, line.sku_produto, line.quantidade) {
            (reduced, Some(line.sku_produto))
        } else {
            reconciled(counted, lines.skip(1))
        }
    }
}

/// The view of the outcome of an adjustment.
pub open spec fn adjustment_view(r: Result<(), OrderError>) -> Result<(), OrderErrorView> {
    match r {
        Ok(()) => Ok(()),
        Err(e) => Err(e@),
    }
}

/// The products of the catalog, held in memory.
pub struct Inventory {
    produtos: Vec<Produto>,
}

impl View for Inventory {
    type V = Seq<ProdutoView>;

    closed spec fn view(&self) -> Seq<ProdutoView> {
        seq_view(self.produtos@)
    }
}

impl Inventory {
    /// An inventory without products.
    pub fn new() -> (inventory: Inventory)
        ensures
            inventory@ == Seq::<ProdutoView>::empty(),
    {
        let inventory = Inventory { produtos: Vec::new() };
        assert(inventory@ =~= Seq::<ProdutoView>::empty());
        inventory
    }

    /// Adds `produto`, unless the inventory has a product with its SKU.
    pub fn insert(&mut self, produto: Produto) -> (added: bool)
        ensures
            added == (find_product(old(self)@, produto.sku@) is None),
            final(self)@ == if added {
                old(self)@.push(produto@)
            } else {
                old(self)@
            },
    {
        match find_in_catalog(&self.produtos, &produto.sku) {
            Some(_) => false,
            None => {
                let ghost before = seq_view(self.produtos@);
                let ghost added = produto@;
                self.produtos.push(produto);
                proof {
                    assert(seq_view(self.produtos@) =~= before.push(added));
                }
                true
            },
        }
    }

    /// The product with the SKU `sku`, if there is one.
    pub fn get(&self, sku: &String) -> (found: Option<Produto>)
        ensures
            find_product(self@, sku@) == match found {
                Some(p) => Some(p@),
                None => None,
            },
    {
        match find_in_catalog(&self.produtos, sku) {
            Some(i) => Some(self.produtos[i].clone()),
            None => None,
        }
    }

    /// The products whose SKU is one of `skus`, in the order of the
    /// inventory: what one query of the catalog for a set of SKUs gives.
    pub fn get_by_skus(&self, skus: &Vec<String>) -> (produtos: Vec<Produto>)
        ensures
            seq_view(produtos@) == self@.filter(sku_among(seq_view(skus@))),
    {
        let ghost wanted = sku_among(seq_view(skus@));
        let ghost rows = seq_view(self.produtos@);
        let n = self.produtos.len();
        let mut produtos: Vec<Produto> = Vec::new();
        let mut i: usize = 0;
        proof {
            assert(rows.take(0) =~= Seq::empty());
            assert(seq_view(produtos@) =~= rows.take(0).filter(wanted));
        }
        while i < n
            invariant
                i <= n,
                n == self.produtos.len(),
                rows == seq_view(self.produtos@),
                wanted == sku_among(seq_view(skus@)),
                seq_view(produtos@) == rows.take(i as int).filter(wanted),
            decreases n - i,
        {
            let asked = contains_sku(skus, &self.produtos[i].sku);
            proof {
                assert(rows.take(i + 1).drop_last() =~= rows.take(i as int));
                assert(rows.take(i + 1).last() == rows[i as int]);
                reveal(Seq::filter);
                assert(wanted(rows[i as int]) == asked);
            }
            if asked {
                let ghost before = seq_view(produtos@);
                let row = self.produtos[i].clone();
                produtos.push(row);
                proof {
                    assert(seq_view(produtos@) =~= before.push(rows[i as int]));
                }
            }
            i = i + 1;
        }
        proof {
            assert(rows.take(n as int) =~= rows);
        }
        produtos
    }

    /// Adds `quantidade`, which may be negative, to the stock of the product
    /// `sku`. Fails, and changes nothing, where the inventory has no such
    /// product or the new stock is beyond what the record can hold. The stock
    /// is not compared with zero.
    #[verifier::loop_isolation(false)]
    pub fn update_estoque(&mut self, sku: &String, quantidade: i64) -> (result: Result<
        (),
        OrderError,
    >)
        ensures
            adjustment_view(result) == if can_add_to_stock(old(self)@, sku@, quantidade as int) {
                Ok::<(), OrderErrorView>(())
            } else {
                Err::<(), OrderErrorView>(OrderErrorView::ReconciliationFailure { sku: sku@ })
            },
            final(self)@ == if can_add_to_stock(old(self)@, sku@, quantidade as int) {
                old(self)@.map_values(add_to_stock(sku@, quantidade as int))
            } else {
                old(self)@
            },
    {
        let ghost rows = seq_view(self.produtos@);
        let ghost change = add_to_stock(sku@, quantidade as int);
        proof {
            lemma_find_product(rows, sku@);
        }
        if find_in_catalog(&self.produtos, sku).is_none() {
            return Err(OrderError::ReconciliationFailure { sku: sku.clone() });
        }
        let n = self.produtos.len();
        let mut updated: Vec<Produto> = Vec::new();
        let mut i: usize = 0;
        while i < n
            invariant
                i <= n,
                n == self.produtos.len(),
                rows == seq_view(self.produtos@),
                change == add_to_stock(sku@, quantidade as int),
                *self == *old(self),
                find_product(rows, sku@) is Some,
                updated.len() == i,
                forall|k: int| 0 <= k < i ==> (#[trigger] updated@[k])@ == change(rows[k]),
                forall|k: int|
                    0 <= k < i && (#[trigger] rows[k]).sku == sku@ ==> i64::MIN <= rows[k].estoque
                        + quantidade <= i64::MAX,
            decreases n - i,
        {
            let row = &self.produtos[i];
            if row.sku == *sku {
                match row.estoque.checked_add(quantidade) {
                    None => {
                        proof {
                            assert(rows[i as int].sku == sku@);
                        }
                        return Err(OrderError::ReconciliationFailure { sku: sku.clone() });
                    },
                    Some(estoque) => {
                        updated.push(
                            Produto {
                                sku: row.sku.clone(),
                                preco: row.preco,
                                estoque,
                                qtdvendas: row.qtdvendas,
                            },
                        );
                    },
                }
            } else {
                updated.push(row.clone());
            }
            i = i + 1;
        }
        self.produtos = updated;
        proof {
            assert(seq_view(self.produtos@) =~= rows.map_values(change));
        }
        Ok(())
    }

    /// Adds `quantidade` to the sales counter of the product `sku`. Fails,
    /// and changes nothing, where the inventory has no such product or the
    /// new count is beyond what the record can hold.
    #[verifier::loop_isolation(false)]
    pub fn update_vendas(&mut self, sku: &String, quantidade: i64) -> (result: Result<
        (),
        OrderError,
    >)
        ensures
            adjustment_view(result) == if can_add_to_sales(old(self)@, sku@, quantidade as int) {
                Ok::<(), OrderErrorView>(())
            } else {
                Err::<(), OrderErrorView>(OrderErrorView::ReconciliationFailure { sku: sku@ })
            },
            final(self)@ == if can_add_to_sales(old(self)@, sku@, quantidade as int) {
                old(self)@.map_values(add_to_sales(sku@, quantidade as int))
            } else {
                old(self)@
            },
    {
        let ghost rows = seq_view(self.produtos@);
        let ghost change = add_to_sales(sku@, quantidade as int);
        proof {
            lemma_find_product(rows, sku@);
        }
        if find_in_catalog(&self.produtos, sku).is_none() {
            return Err(OrderError::ReconciliationFailure { sku: sku.clone() });
        }
        let n = self.produtos.len();
        let mut updated: Vec<Produto> = Vec::new();
        let mut i: usize = 0;
        while i < n
            invariant
                i <= n,
                n == self.produtos.len(),
                rows == seq_view(self.produtos@),
                change == add_to_sales(sku@, quantidade as int),
                *self == *old(self),
                find_product(rows, sku@) is Some,
                updated.len() == i,
                forall|k: int| 0 <= k < i ==> (#[trigger] updated@[k])@ == change(rows[k]),
                forall|k: int|
                    0 <= k < i && (#[trigger] rows[k]).sku == sku@ ==> i32::MIN <= rows[k].qtdvendas
                        + quantidade <= i32::MAX,
            decreases n - i,
        {
            let row = &self.produtos[i];
            if row.sku == *sku {
                let count: i128 = row.qtdvendas as i128 + quantidade as i128;
                if count < i32::MIN as i128 || count > i32::MAX as i128 {
                    proof {
                        assert(rows[i as int].sku == sku@);
                    }
                    return Err(OrderError::ReconciliationFailure { sku: sku.clone() });
                }
                updated.push(
                    Produto {
                        sku: row.sku.clone(),
                        preco: row.preco,
                        estoque: row.estoque,
                        qtdvendas: count as i32,
                    },
                );
            } else {
                updated.push(row.clone());
            }
            i = i + 1;
        }
        self.produtos = updated;
        proof {
            assert(seq_view(self.produtos@) =~= rows.map_values(change));
        }
        Ok(())
    }

    /// Reconciles the inventory with the line items of a stored order. Where
    /// an adjustment fails, the error names the SKU of its line, and the
    /// lines after it are left alone.
    pub fn reconcile(&mut self, lines: &Vec<ProdutosPedido>) -> (failure: Option<OrderError>)
        ensures
            final(self)@ == reconciled(old(self)@, seq_view(lines@)).0,
            match failure {
                Some(e) => reconciled(old(self)@, seq_view(lines@)).1 matches Some(sku) && e@
                    == (OrderErrorView::ReconciliationFailure { sku }),
                None => reconciled(old(self)@, seq_view(lines@)).1 is None,
            },
    {
        let ghost all = seq_view(lines@);
        let n = lines.len();
        let mut i: usize = 0;
        proof {
            assert(all.skip(0) =~= all);
        }
        while i < n
            invariant
                i <= n,
                n == lines.len(),
                all == seq_view(lines@),
                reconciled(old(self)@, all) == reconciled(self@, all.skip(i as int)),
            decreases n - i,
        {
            let line = &lines[i];
            proof {
                assert(all.skip(i as int)[0] == line@);
                assert(all.skip(i as int).skip(1) =~= all.skip(i + 1));
            }
            match self.update_estoque(&line.sku_produto, -(line.quantidade as i64)) {
                Err(e) => {
                    return Some(e);
                },
                Ok(()) => {},
            }
            match self.update_vendas(&line.sku_produto, line.quantidade as i64) {
                Err(e) => {
                    return Some(e);
                },
                Ok(()) => {},
            }
            i = i + 1;
        }
        None
    }
}

/// Whether `sku` is one of `skus`.
pub fn contains_sku(skus: &Vec<String>, sku: &String) -> (found: bool)
    ensures
        found == seq_view(skus@).contains(sku@),
{
    let n = skus.len();
    let mut i: usize = 0;
    while i < n
        invariant
            i <= n,
            n == skus.len(),
            forall|k: int| 0 <= k < i ==> skus@[k]@ != sku@,
        decreases n - i,
    {
        if skus[i] == *sku {
            proof {
                assert(seq_view(skus@)[i as int] == sku@);
            }
            return true;
        }
        i = i + 1;
    }
    proof {
        assert forall|k: int| 0 <= k < seq_view(skus@).len() implies seq_view(skus@)[k] != sku@ by {
            assert(seq_view(skus@)[k] == skus@[k]@);
        }
    }
    false
}

} // verus!
