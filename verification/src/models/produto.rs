//! Catalog products and the priced lines of an order.

use vstd::prelude::*;

verus! {

/// The views of the items of a sequence, in order.
pub open spec fn seq_view<T: View>(s: Seq<T>) -> Seq<T::V> {
    Seq::new(s.len(), |i: int| s[i]@)
}

/// A product as the catalog holds it: the price is in cents, the stock in
/// whole units.
pub struct Produto {
    pub sku: String,
    pub preco: i64,
    pub estoque: i64,
    pub qtdvendas: i32,
}

/// What a `Produto` stands for.
pub ghost struct ProdutoView {
    pub sku: Seq<char>,
    pub preco: int,
    pub estoque: int,
    pub qtdvendas: int,
}

impl View for Produto {
    type V = ProdutoView;

    open spec fn view(&self) -> ProdutoView {
        ProdutoView {
            sku: self.sku@,
            preco: self.preco as int,
            estoque: self.estoque as int,
            qtdvendas: self.qtdvendas as int,
        }
    }
}

impl Clone for Produto {
    fn clone(&self) -> (res: Self)
        ensures
            res == *self,
    {
        Produto {
            sku: self.sku.clone(),
            preco: self.preco,
            estoque: self.estoque,
            qtdvendas: self.qtdvendas,
        }
    }
}

/// One line of a priced order: the unit price is the catalog's, every amount
/// is in cents.
pub struct ProdutoPayload {
    pub sku_produto: String,
    pub quantidade: i32,
    pub valor_unitario: i64,
    pub valor_bruto: i64,
    pub valor_desconto: i64,
    pub valor_liquido: i64,
    pub valor_frete: i64,
}

/// What a `ProdutoPayload` stands for.
pub ghost struct ProdutoPayloadView {
    pub sku_produto: Seq<char>,
    pub quantidade: int,
    pub valor_unitario: int,
    pub valor_bruto: int,
    pub valor_desconto: int,
    pub valor_liquido: int,
    pub valor_frete: int,
}

impl View for ProdutoPayload {
    type V = ProdutoPayloadView;

    open spec fn view(&self) -> ProdutoPayloadView {
        ProdutoPayloadView {
            sku_produto: self.sku_produto@,
            quantidade: self.quantidade as int,
            valor_unitario: self.valor_unitario as int,
            valor_bruto: self.valor_bruto as int,
            valor_desconto: self.valor_desconto as int,
            valor_liquido: self.valor_liquido as int,
            valor_frete: self.valor_frete as int,
        }
    }
}

impl ProdutoPayloadView {
    /// Whether every field fits the machine type that holds it.
    pub open spec fn representable(self) -> bool {
        &&& i32::MIN <= self.quantidade <= i32::MAX
        &&& i64::MIN <= self.valor_unitario <= i64::MAX
        &&& i64::MIN <= self.valor_bruto <= i64::MAX
        &&& i64::MIN <= self.valor_desconto <= i64::MAX
        &&& i64::MIN <= self.valor_liquido <= i64::MAX
        &&& i64::MIN <= self.valor_frete <= i64::MAX
    }
}

impl Clone for ProdutoPayload {
    fn clone(&self) -> (res: Self)
        ensures
            res == *self,
    {
        ProdutoPayload {
            sku_produto: self.sku_produto.clone(),
            quantidade: self.quantidade,
            valor_unitario: self.valor_unitario,
            valor_bruto: self.valor_bruto,
            valor_desconto: self.valor_desconto,
            valor_liquido: self.valor_liquido,
            valor_frete: self.valor_frete,
        }
    }
}

/// The page of a listing that a request asks for.
pub struct QueryParams {
    pub page: Option<u32>,
    pub page_size: Option<u32>,
}

/// The page of a search by name that a request asks for.
pub struct QueryParamsWithName {
    pub page: Option<u32>,
    pub page_size: Option<u32>,
    pub name: Option<String>,
}

} // verus!
