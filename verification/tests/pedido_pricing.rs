use api_actix::models::pedido::{Cart, CartLine, EnderecoPayload, PaymentIntent};
use api_actix::models::produto::Produto;
use api_actix::services::pedido_service::{day_of, find_in_catalog, PedidoService};
use api_actix::utils::app_message::{CartField, OrderError};
use api_actix::utils::money::{rounded_quotient, ROUNDING_LIMIT};
use api_actix::utils::tabela_frete::{parse_region_code, FreightTable};

fn address(uf: &str) -> EnderecoPayload {
    EnderecoPayload {
        nome_remetente: "Maria".to_string(),
        cep: "01001000".to_string(),
        logradouro: "Rua A".to_string(),
        numero: "10".to_string(),
        complemento: None,
        bairro: "Centro".to_string(),
        codigo_ibge_cidade: "3550308".to_string(),
        codigo_ibge_uf: uf.to_string(),
    }
}

fn cart(uf: &str, rate: i32, parcelas: i32, lines: &[(&str, i32)]) -> Cart {
    Cart {
        id_cliente: "c-1".to_string(),
        endereco_entrega: address(uf),
        pagamento: PaymentIntent {
            forma_pagamento: "cartao".to_string(),
            numero_parcelas: parcelas,
            porcentagem_desconto: rate,
        },
        produtos: lines
            .iter()
            .map(|(sku, q)| CartLine { sku_produto: sku.to_string(), quantidade: *q })
            .collect(),
    }
}

fn product(sku: &str, preco: i64, estoque: i64) -> Produto {
    Produto { sku: sku.to_string(), preco, estoque, qtdvendas: 0 }
}

#[test]
fn two_lines_ten_percent_discount() {
    let catalog = vec![product("A", 1000, 5), product("B", 500, 5)];
    let table = FreightTable::standard();
    let order =
        PedidoService::price(&cart("32", 1000, 1, &[("A", 2), ("B", 1)]), &catalog, &table, 0)
            .unwrap();
    let a = &order.produtos[0];
    assert_eq!(a.sku_produto, "A");
    assert_eq!(a.quantidade, 2);
    assert_eq!(a.valor_unitario, 1000);
    assert_eq!(a.valor_bruto, 2000);
    assert_eq!(a.valor_desconto, 200);
    assert_eq!(a.valor_liquido, 1800);
    assert_eq!(a.valor_frete, 500);
    let b = &order.produtos[1];
    assert_eq!(b.sku_produto, "B");
    assert_eq!(b.valor_bruto, 500);
    assert_eq!(b.valor_desconto, 50);
    assert_eq!(b.valor_liquido, 450);
    assert_eq!(b.valor_frete, 500);
    assert_eq!(order.produtos.len(), 2);
    assert_eq!(order.valor_bruto, 2500);
    assert_eq!(order.valor_desconto, 250);
    assert_eq!(order.valor_frete, 1000);
    assert_eq!(order.valor_liquido, 3250);
    assert_eq!(order.pagamento.valor_total, 3250);
    assert_eq!(order.pagamento.valor_parcela, 3250);
    assert_eq!(order.id_cliente, "c-1");
    assert_eq!(order.endereco_entrega.codigo_ibge_uf, "32");
}

#[test]
fn net_is_gross_less_discount_plus_freight() {
    let catalog = vec![product("A", 1999, 50), product("B", 333, 50), product("C", 1, 50)];
    let table = FreightTable::standard();
    let order = PedidoService::price(
        &cart("24", 1250, 3, &[("A", 7), ("B", 3), ("C", 11)]),
        &catalog,
        &table,
        1_700_000_000,
    )
    .unwrap();
    assert_eq!(order.valor_bruto, 7 * 1999 + 3 * 333 + 11);
    let discount: i64 = order.produtos.iter().map(|p| p.valor_desconto).sum();
    assert_eq!(order.valor_desconto, discount);
    assert_eq!(order.valor_desconto, 1749 + 125 + 1);
    assert_eq!(order.valor_frete, 2500);
    assert_eq!(order.valor_liquido, order.valor_bruto - order.valor_desconto + order.valor_frete);
    assert_eq!(order.produtos[0].valor_frete, 833);
    assert_eq!(order.valor_liquido, 15628);
    assert_eq!(order.pagamento.valor_parcela, 5209);
}

#[test]
fn client_prices_play_no_part() {
    let cheap = vec![product("A", 100, 5)];
    let dear = vec![product("A", 900, 5)];
    let table = FreightTable::standard();
    let c = cart("35", 0, 1, &[("A", 1)]);
    assert_eq!(PedidoService::price(&c, &cheap, &table, 0).unwrap().valor_liquido, 100);
    assert_eq!(PedidoService::price(&c, &dear, &table, 0).unwrap().valor_liquido, 900);
}

#[test]
fn empty_cart_is_invalid_input() {
    let table = FreightTable::standard();
    let r = PedidoService::price(&cart("35", 0, 1, &[]), &vec![product("A", 1, 1)], &table, 0);
    assert!(matches!(r, Err(OrderError::InvalidInput { field: CartField::Produtos })));
}

#[test]
fn absent_sku_is_product_not_found() {
    let table = FreightTable::standard();
    let catalog = vec![product("A", 1000, 5)];
    let r = PedidoService::price(&cart("35", 0, 1, &[("A", 1), ("Z", 1), ("Y", 1)]), &catalog, &table, 0);
    match r {
        Err(OrderError::ProductNotFound { sku }) => assert_eq!(sku, "Z"),
        _ => panic!("expected ProductNotFound"),
    }
}

#[test]
fn absent_sku_comes_before_unknown_region_and_short_stock() {
    let table = FreightTable::standard();
    let catalog = vec![product("A", 1000, 0)];
    let r = PedidoService::price(&cart("99", 0, 1, &[("A", 1), ("Z", 1)]), &catalog, &table, 0);
    assert!(matches!(r, Err(OrderError::ProductNotFound { .. })));
}

#[test]
fn quantity_over_stock_is_insufficient_stock() {
    let table = FreightTable::standard();
    let catalog = vec![product("A", 1000, 5), product("B", 500, 2)];
    let r = PedidoService::price(&cart("35", 0, 1, &[("A", 5), ("B", 3)]), &catalog, &table, 0);
    match r {
        Err(OrderError::InsufficientStock { sku }) => assert_eq!(sku, "B"),
        _ => panic!("expected InsufficientStock"),
    }
}

#[test]
fn quantity_equal_to_stock_is_accepted() {
    let table = FreightTable::standard();
    let catalog = vec![product("A", 1000, 5)];
    assert!(PedidoService::price(&cart("35", 0, 1, &[("A", 5)]), &catalog, &table, 0).is_ok());
}

#[test]
fn unknown_region_is_invalid_region() {
    let table = FreightTable::standard();
    let catalog = vec![product("A", 1000, 5)];
    for uf in ["99", "0", "", "SP", "3 5", "-", "+", "99999999999999999999"] {
        match PedidoService::price(&cart(uf, 0, 1, &[("A", 1)]), &catalog, &table, 0) {
            Err(OrderError::InvalidRegion { codigo }) => assert_eq!(codigo, uf),
            _ => panic!("expected InvalidRegion"),
        }
    }
}

#[test]
fn unknown_region_comes_before_short_stock() {
    let table = FreightTable::standard();
    let catalog = vec![product("A", 1000, 0)];
    let r = PedidoService::price(&cart("99", 0, 1, &[("A", 1)]), &catalog, &table, 0);
    assert!(matches!(r, Err(OrderError::InvalidRegion { .. })));
}

#[test]
fn zero_installments_is_invalid_input() {
    let table = FreightTable::standard();
    let catalog = vec![product("A", 1000, 5)];
    let r = PedidoService::price(&cart("35", 0, 0, &[("A", 1)]), &catalog, &table, 0);
    assert!(matches!(r, Err(OrderError::InvalidInput { field: CartField::NumeroParcelas })));
}

#[test]
fn amounts_beyond_the_record_are_invalid_input() {
    let table = FreightTable::standard();
    let catalog = vec![product("A", i64::MAX, i64::MAX)];
    let r = PedidoService::price(&cart("35", 0, 1, &[("A", 2)]), &catalog, &table, 0);
    assert!(matches!(r, Err(OrderError::InvalidInput { field: CartField::Valores })));
    let r = PedidoService::price(&cart("35", 0, 1, &[("A", 1), ("A", 1)]), &catalog, &table, 0);
    assert!(matches!(r, Err(OrderError::InvalidInput { field: CartField::Valores })));
    let r = PedidoService::price(&cart("35", 0, 1, &[("A", 1)]), &catalog, &table, 0);
    assert_eq!(r.unwrap().valor_liquido, i64::MAX);
}

#[test]
fn discount_is_rounded_half_up_per_line() {
    let table = FreightTable::standard();
    let catalog = vec![product("A", 5, 10), product("B", 4, 10), product("C", 15, 10)];
    // ten percent of 0.05 is half a cent: rounded up; of 0.04, less: rounded down
    let order =
        PedidoService::price(&cart("35", 1000, 1, &[("A", 1), ("B", 1), ("C", 1)]), &catalog, &table, 0)
            .unwrap();
    assert_eq!(order.produtos[0].valor_desconto, 1);
    assert_eq!(order.produtos[1].valor_desconto, 0);
    assert_eq!(order.produtos[2].valor_desconto, 2);
    assert_eq!(order.valor_desconto, 3);
}

#[test]
fn no_discount_for_a_rate_that_is_not_positive() {
    let table = FreightTable::standard();
    let catalog = vec![product("A", 1000, 10)];
    for rate in [0, -1, -1000, i32::MIN] {
        let order =
            PedidoService::price(&cart("35", rate, 1, &[("A", 3)]), &catalog, &table, 0).unwrap();
        assert_eq!(order.valor_desconto, 0);
        assert_eq!(order.valor_liquido, 3000);
    }
}

#[test]
fn freight_share_is_even_whatever_the_quantities() {
    let table = FreightTable::standard();
    let catalog = vec![product("A", 1000, 100), product("B", 1000, 100), product("C", 1000, 100)];
    let order =
        PedidoService::price(&cart("32", 0, 1, &[("A", 50), ("B", 1), ("C", 1)]), &catalog, &table, 0)
            .unwrap();
    // 10.00 over three lines: 3.33 each, and the shares do not add up to the freight
    assert_eq!(order.produtos[0].valor_frete, 333);
    assert_eq!(order.produtos[1].valor_frete, 333);
    assert_eq!(order.produtos[2].valor_frete, 333);
    assert_eq!(order.valor_frete, 1000);
}

#[test]
fn installment_is_net_over_count_rounded() {
    let table = FreightTable::standard();
    let catalog = vec![product("A", 1000, 10)];
    let order = PedidoService::price(&cart("35", 0, 3, &[("A", 1)]), &catalog, &table, 0).unwrap();
    assert_eq!(order.pagamento.numero_parcelas, 3);
    assert_eq!(order.pagamento.valor_total, 1000);
    assert_eq!(order.pagamento.valor_parcela, 333);
    let order = PedidoService::price(&cart("35", 0, 8, &[("A", 1)]), &catalog, &table, 0).unwrap();
    assert_eq!(order.pagamento.valor_parcela, 125);
    let order = PedidoService::price(&cart("35", 0, 16, &[("A", 1)]), &catalog, &table, 0).unwrap();
    assert_eq!(order.pagamento.valor_parcela, 63);
}

#[test]
fn delivery_is_three_days_after_submission() {
    let table = FreightTable::standard();
    let catalog = vec![product("A", 1000, 10)];
    let c = cart("35", 0, 1, &[("A", 1)]);
    assert_eq!(PedidoService::price(&c, &catalog, &table, 0).unwrap().data_entrega, 3);
    assert_eq!(PedidoService::price(&c, &catalog, &table, 86_399).unwrap().data_entrega, 3);
    assert_eq!(PedidoService::price(&c, &catalog, &table, 86_400).unwrap().data_entrega, 4);
    assert_eq!(PedidoService::price(&c, &catalog, &table, -1).unwrap().data_entrega, 2);
    assert_eq!(
        PedidoService::price(&c, &catalog, &table, 1_700_000_000).unwrap().data_entrega,
        19675 + 3
    );
}

#[test]
fn pricing_twice_gives_the_same_amounts() {
    let table = FreightTable::standard();
    let catalog = vec![product("A", 1999, 50), product("B", 333, 50)];
    let c = cart("43", 750, 2, &[("A", 7), ("B", 3)]);
    let first = PedidoService::price(&c, &catalog, &table, 1_000).unwrap();
    let second = PedidoService::price(&c, &catalog, &table, 900_000).unwrap();
    assert_eq!(first.valor_bruto, second.valor_bruto);
    assert_eq!(first.valor_desconto, second.valor_desconto);
    assert_eq!(first.valor_frete, second.valor_frete);
    assert_eq!(first.valor_liquido, second.valor_liquido);
    assert_eq!(first.pagamento.valor_parcela, second.pagamento.valor_parcela);
    for (a, b) in first.produtos.iter().zip(second.produtos.iter()) {
        assert_eq!(a.valor_bruto, b.valor_bruto);
        assert_eq!(a.valor_desconto, b.valor_desconto);
        assert_eq!(a.valor_liquido, b.valor_liquido);
        assert_eq!(a.valor_frete, b.valor_frete);
    }
}

#[test]
fn the_last_row_of_a_sku_prices_the_line() {
    let catalog = vec![product("A", 100, 1), product("B", 5, 1), product("A", 700, 1)];
    assert_eq!(find_in_catalog(&catalog, &"A".to_string()), Some(2));
    assert_eq!(find_in_catalog(&catalog, &"B".to_string()), Some(1));
    assert_eq!(find_in_catalog(&catalog, &"C".to_string()), None);
}

#[test]
fn rounding_is_half_away_from_zero() {
    assert_eq!(rounded_quotient(5, 10), Some(1));
    assert_eq!(rounded_quotient(4, 10), Some(0));
    assert_eq!(rounded_quotient(15, 10), Some(2));
    assert_eq!(rounded_quotient(-5, 10), Some(-1));
    assert_eq!(rounded_quotient(-4, 10), Some(0));
    assert_eq!(rounded_quotient(5, -10), Some(-1));
    assert_eq!(rounded_quotient(-15, -10), Some(2));
    assert_eq!(rounded_quotient(1000, 3), Some(333));
    assert_eq!(rounded_quotient(2000, 3), Some(667));
    assert_eq!(rounded_quotient(0, 7), Some(0));
    assert_eq!(rounded_quotient(7, 0), None);
    assert_eq!(rounded_quotient(0, 0), None);
    assert_eq!(rounded_quotient(ROUNDING_LIMIT, 1), None);
    assert_eq!(rounded_quotient(1, -ROUNDING_LIMIT), None);
    assert_eq!(rounded_quotient(ROUNDING_LIMIT - 1, 1), Some(ROUNDING_LIMIT - 1));
    assert_eq!(rounded_quotient(1 - ROUNDING_LIMIT, ROUNDING_LIMIT - 1), Some(-1));
}

#[test]
fn day_of_counts_whole_days_from_the_epoch() {
    assert_eq!(day_of(0), 0);
    assert_eq!(day_of(86_399), 0);
    assert_eq!(day_of(86_400), 1);
    assert_eq!(day_of(-1), -1);
    assert_eq!(day_of(-86_400), -1);
    assert_eq!(day_of(-86_401), -2);
    assert_eq!(day_of(i64::MIN), -106_751_991_167_301);
    assert_eq!(day_of(i64::MAX), 106_751_991_167_300);
}

#[test]
fn regional_codes_are_signed_decimal_numbers() {
    assert_eq!(parse_region_code("35"), Some(35));
    assert_eq!(parse_region_code("035"), Some(35));
    assert_eq!(parse_region_code("+35"), Some(35));
    assert_eq!(parse_region_code("-35"), Some(-35));
    assert_eq!(parse_region_code("0"), Some(0));
    assert_eq!(parse_region_code(""), None);
    assert_eq!(parse_region_code("-"), None);
    assert_eq!(parse_region_code("+"), None);
    assert_eq!(parse_region_code(" 35"), None);
    assert_eq!(parse_region_code("35 "), None);
    assert_eq!(parse_region_code("3.5"), None);
    assert_eq!(parse_region_code("३५"), None);
    assert_eq!(parse_region_code("9223372036854775807"), Some(i64::MAX));
    assert_eq!(parse_region_code("9223372036854775808"), None);
    assert_eq!(parse_region_code("-9223372036854775808"), Some(i64::MIN));
    assert_eq!(parse_region_code("-9223372036854775809"), None);
    assert_eq!(parse_region_code("000000000000000000000000000000000000000012"), Some(12));
    assert_eq!(parse_region_code("340282366920938463463374607431768211456"), None);
}

#[test]
fn regional_codes_are_read_as_std_reads_them() {
    for text in ["35", "+7", "-0", "--1", "1-", "", "+", "0x10", "1e3", "12345678901234567890"] {
        assert_eq!(parse_region_code(text), text.parse::<i64>().ok());
    }
}

#[test]
fn standard_freight_table() {
    let table = FreightTable::standard();
    assert_eq!(table.get(35), Some(0));
    for code in [31, 33, 41, 50] {
        assert_eq!(table.get(code), Some(500));
    }
    for code in [32, 29, 52, 51, 53, 42] {
        assert_eq!(table.get(code), Some(1000));
    }
    for code in [43, 11, 13, 15, 17, 22, 26, 27, 28] {
        assert_eq!(table.get(code), Some(1500));
    }
    for code in [12, 14, 16, 21, 23, 25] {
        assert_eq!(table.get(code), Some(2000));
    }
    assert_eq!(table.get(24), Some(2500));
    let listed = (-100..100).filter(|c| table.get(*c).is_some()).count();
    assert_eq!(listed, 27);
    assert_eq!(table.get(0), None);
    assert_eq!(table.get(-35), None);
}

#[test]
fn a_table_holds_what_was_put_in_it() {
    let mut table = FreightTable::new();
    assert_eq!(table.get(1), None);
    table.insert(1, 1234);
    table.insert(2, 10);
    table.insert(1, 999);
    assert_eq!(table.get(1), Some(999));
    assert_eq!(table.get(2), Some(10));
    assert_eq!(table.get(3), None);
}
