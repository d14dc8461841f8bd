use api_actix::configs::auth::AuthConfig;
use api_actix::dal::cliente_dal::{ClienteDal, DuplicateField};
use api_actix::dal::produto_dal::{FieldSelection, ProdutoDal};
use api_actix::middlewares::is_authenticated::{AuthFailure, Authentication, ClienteAuth};
use api_actix::models::categoria::CategoriaResumo;
use api_actix::models::cliente::{CreateClientePayload, NewCliente};
use api_actix::models::login::Claims;
use api_actix::models::produto::{QueryParams, QueryParamsWithName};
use api_actix::services::cliente_service::{
    validate_email, validate_nome, validate_razao_social, ClienteService, LoginError,
    LoginPayload, RegistrationError,
};
use api_actix::services::home_service::HomeService;
use api_actix::services::produto_service::{PageWindow, ProdutoService};
use api_actix::utils::app_message::ValidationError;
use api_actix::utils::hash_password::{compare_passwords, hash_password};
use api_actix::utils::text::{chars_of, contains_text};
use api_actix::validations::cliente_validations::{
    digits_of, filled, validate_cnpj, validate_cpf, validate_data_nascimento, validate_ie,
    validate_senha_forte, validate_sexo, validate_telefone, validate_tipo_pessoa,
    validate_tipo_pessoa_consistency, ValidationFailure,
};

fn person() -> CreateClientePayload {
    CreateClientePayload {
        tipo_pessoa: "PF".to_string(),
        cpf: Some("529.982.247-25".to_string()),
        cnpj: None,
        nome: "Maria da Silva".to_string(),
        ie: None,
        razao_social: None,
        data_nascimento: "1990-02-28".to_string(),
        sexo: "F".to_string(),
        email: "Maria@Exemplo.COM".to_string(),
        telefone: "(11) 98765-4321".to_string(),
        senha: "Segredo#2024".to_string(),
        confirmar_senha: "Segredo#2024".to_string(),
    }
}

fn company() -> CreateClientePayload {
    CreateClientePayload {
        tipo_pessoa: "PJ".to_string(),
        cpf: None,
        cnpj: Some("11.222.333/0001-81".to_string()),
        nome: "Loja".to_string(),
        ie: Some("1234567".to_string()),
        razao_social: Some("Loja Ltda".to_string()),
        ..person()
    }
}

#[test]
fn cpf_check_digits() {
    assert_eq!(validate_cpf("529.982.247-25"), Ok(()));
    assert_eq!(validate_cpf("52998224725"), Ok(()));
    assert_eq!(validate_cpf("  529 982 247 25 x"), Ok(()));
    assert_eq!(validate_cpf("111.444.777-35"), Ok(()));
    // a first check digit that comes out as ten counts as zero
    assert_eq!(validate_cpf("000.000.019-00"), Err(ValidationFailure::CpfInvalid));
    assert_eq!(validate_cpf("529.982.247-26"), Err(ValidationFailure::CpfInvalid));
    assert_eq!(validate_cpf("529.982.247-35"), Err(ValidationFailure::CpfInvalid));
    assert_eq!(validate_cpf("111.111.111-11"), Err(ValidationFailure::CpfInvalid));
    assert_eq!(validate_cpf("000.000.000-00"), Err(ValidationFailure::CpfInvalid));
    assert_eq!(validate_cpf(""), Err(ValidationFailure::CpfLength));
    assert_eq!(validate_cpf("529.982.247-2"), Err(ValidationFailure::CpfLength));
    assert_eq!(validate_cpf("529.982.247-255"), Err(ValidationFailure::CpfLength));
    assert_eq!(validate_cpf("abc"), Err(ValidationFailure::CpfLength));
}

#[test]
fn cpf_with_a_check_digit_of_zero_from_a_remainder_of_ten() {
    // the first nine digits have the weighted sum 3: 30 mod 11 is 8; the
    // first ten have the sum 20: 200 mod 11 is 2
    assert_eq!(validate_cpf("00000001082"), Ok(()));
    assert_eq!(validate_cpf("00000001083"), Err(ValidationFailure::CpfInvalid));
    assert_eq!(validate_cpf("00000001092"), Err(ValidationFailure::CpfInvalid));
    // the digits 1 2 3 4 5 6 7 8 9 have the sum 210: 2100 mod 11 is 10, which counts as 0
    assert_eq!(validate_cpf("123.456.789-09"), Ok(()));
    assert_eq!(validate_cpf("123.456.789-19"), Err(ValidationFailure::CpfInvalid));
}

#[test]
fn cnpj_check_digits() {
    assert_eq!(validate_cnpj("11.222.333/0001-81"), Ok(()));
    assert_eq!(validate_cnpj("11222333000181"), Ok(()));
    assert_eq!(validate_cnpj("11.444.777/0001-61"), Ok(()));
    assert_eq!(validate_cnpj("11.222.333/0001-82"), Err(ValidationFailure::CnpjInvalid));
    assert_eq!(validate_cnpj("11.222.333/0001-91"), Err(ValidationFailure::CnpjInvalid));
    assert_eq!(validate_cnpj("11.111.111/1111-11"), Err(ValidationFailure::CnpjInvalid));
    assert_eq!(validate_cnpj("1122233300018"), Err(ValidationFailure::CnpjLength));
    assert_eq!(validate_cnpj("112223330001811"), Err(ValidationFailure::CnpjLength));
    assert_eq!(validate_cnpj(""), Err(ValidationFailure::CnpjLength));
}

#[test]
fn strong_passwords() {
    assert_eq!(validate_senha_forte("Segredo#2024"), Ok(()));
    assert_eq!(validate_senha_forte("Aa1!aaaa"), Ok(()));
    assert_eq!(validate_senha_forte("Aa1!aaa"), Err(ValidationFailure::SenhaCurta));
    assert_eq!(validate_senha_forte(""), Err(ValidationFailure::SenhaCurta));
    assert_eq!(validate_senha_forte("segredo#2024"), Err(ValidationFailure::SenhaSemMaiuscula));
    assert_eq!(validate_senha_forte("SEGREDO#2024"), Err(ValidationFailure::SenhaSemMinuscula));
    assert_eq!(validate_senha_forte("Segredo#abcd"), Err(ValidationFailure::SenhaSemNumero));
    assert_eq!(validate_senha_forte("Segredo12024"), Err(ValidationFailure::SenhaSemEspecial));
    // the length is counted in bytes, the cases by Unicode
    assert_eq!(validate_senha_forte("Éé1!é"), Ok(()));
    assert_eq!(validate_senha_forte("Éé1!"), Err(ValidationFailure::SenhaCurta));
    assert_eq!(validate_senha_forte("Éçãõ1çãõ"), Err(ValidationFailure::SenhaSemEspecial));
    assert_eq!(validate_senha_forte("Abcdefg ١٢٣"), Err(ValidationFailure::SenhaSemNumero));
}

#[test]
fn telephone_numbers() {
    assert_eq!(validate_telefone("(11) 98765-4321"), Ok(()));
    assert_eq!(validate_telefone("1234567890"), Ok(()));
    assert_eq!(validate_telefone("12345678901234"), Ok(()));
    assert_eq!(validate_telefone("123456789"), Err(ValidationFailure::Telefone));
    assert_eq!(validate_telefone("123456789012345"), Err(ValidationFailure::Telefone));
    assert_eq!(validate_telefone(""), Err(ValidationFailure::Telefone));
}

#[test]
fn dates_of_birth() {
    assert_eq!(validate_data_nascimento("1990-02-28"), Ok(()));
    assert_eq!(validate_data_nascimento("2000-02-29"), Ok(()));
    assert_eq!(validate_data_nascimento("1990-02-30"), Err(ValidationFailure::DataNascimento));
    assert_eq!(validate_data_nascimento("1900-02-29"), Err(ValidationFailure::DataNascimento));
    assert_eq!(validate_data_nascimento("28/02/1990"), Err(ValidationFailure::DataNascimento));
    assert_eq!(validate_data_nascimento(""), Err(ValidationFailure::DataNascimento));
}

#[test]
fn state_registrations() {
    assert_eq!(validate_ie(""), Ok(()));
    assert_eq!(validate_ie("1234567"), Ok(()));
    assert_eq!(validate_ie("12345678901234"), Ok(()));
    assert_eq!(validate_ie("123456"), Err(ValidationFailure::Ie));
    assert_eq!(validate_ie("123456789012345"), Err(ValidationFailure::Ie));
    assert_eq!(validate_ie("ççç"), Err(ValidationFailure::Ie));
    assert_eq!(validate_ie("çççç"), Ok(()));
}

#[test]
fn kinds_of_person_and_sexes() {
    assert_eq!(validate_tipo_pessoa("PF"), Ok(()));
    assert_eq!(validate_tipo_pessoa("PJ"), Ok(()));
    for other in ["", "pf", "PFJ", "P", " PF"] {
        assert_eq!(validate_tipo_pessoa(other), Err(ValidationFailure::TipoPessoa));
    }
    for sexo in ["M", "F", "N"] {
        assert_eq!(validate_sexo(sexo), Ok(()));
    }
    for other in ["", "m", "MF", "X"] {
        assert_eq!(validate_sexo(other), Err(ValidationFailure::Sexo));
    }
}

#[test]
fn documents_fit_the_kind_of_person() {
    assert_eq!(validate_tipo_pessoa_consistency(&person()), Ok(()));
    assert_eq!(validate_tipo_pessoa_consistency(&company()), Ok(()));
    let check = |change: fn(&mut CreateClientePayload), base: CreateClientePayload| {
        let mut p = base;
        change(&mut p);
        validate_tipo_pessoa_consistency(&p)
    };
    assert_eq!(check(|p| p.cpf = None, person()), Err(ValidationFailure::CpfObrigatorio));
    assert_eq!(
        check(|p| p.cpf = Some(String::new()), person()),
        Err(ValidationFailure::CpfObrigatorio)
    );
    assert_eq!(
        check(|p| p.cnpj = Some("1".to_string()), person()),
        Err(ValidationFailure::CnpjNaoPermitido)
    );
    assert_eq!(check(|p| p.cnpj = Some(String::new()), person()), Ok(()));
    assert_eq!(check(|p| p.cnpj = None, company()), Err(ValidationFailure::CnpjObrigatorio));
    assert_eq!(
        check(|p| p.cpf = Some("1".to_string()), company()),
        Err(ValidationFailure::CpfNaoPermitido)
    );
    assert_eq!(
        check(|p| p.razao_social = None, company()),
        Err(ValidationFailure::RazaoSocialObrigatoria)
    );
    assert_eq!(
        check(|p| p.razao_social = Some(String::new()), company()),
        Err(ValidationFailure::RazaoSocialObrigatoria)
    );
    assert_eq!(check(|p| p.tipo_pessoa = "XX".to_string(), person()), Err(ValidationFailure::TipoPessoa));
    assert!(filled(&Some("a".to_string())));
    assert!(!filled(&Some(String::new())));
    assert!(!filled(&None));
}

#[test]
fn names_and_addresses() {
    assert_eq!(validate_nome("a"), Ok(()));
    assert_eq!(validate_nome(&"ç".repeat(60)), Ok(()));
    assert_eq!(validate_nome(&"ç".repeat(61)), Err(ValidationFailure::Nome));
    assert_eq!(validate_nome(""), Err(ValidationFailure::Nome));
    assert_eq!(validate_razao_social(""), Ok(()));
    assert_eq!(validate_razao_social(&"x".repeat(60)), Ok(()));
    assert_eq!(validate_razao_social(&"x".repeat(61)), Err(ValidationFailure::RazaoSocial));
    assert_eq!(validate_email("maria@exemplo.com"), Ok(()));
    assert_eq!(validate_email("maria"), Err(ValidationFailure::Email));
    assert_eq!(validate_email("maria@"), Err(ValidationFailure::Email));
    assert_eq!(validate_email(""), Err(ValidationFailure::Email));
}

#[test]
fn field_failures_come_in_the_order_of_the_fields() {
    assert!(ClienteService::validate(&person()).is_empty());
    assert!(ClienteService::validate(&company()).is_empty());
    let bad = CreateClientePayload {
        tipo_pessoa: "XX".to_string(),
        cpf: Some("1".to_string()),
        cnpj: Some("11.222.333/0001-82".to_string()),
        nome: String::new(),
        ie: Some("1".to_string()),
        razao_social: Some("x".repeat(61)),
        data_nascimento: "ontem".to_string(),
        sexo: "?".to_string(),
        email: "nada".to_string(),
        telefone: "1".to_string(),
        senha: "fraca".to_string(),
        confirmar_senha: "fraca".to_string(),
    };
    assert_eq!(
        ClienteService::validate(&bad),
        vec![
            ValidationFailure::TipoPessoa,
            ValidationFailure::CpfLength,
            ValidationFailure::CnpjInvalid,
            ValidationFailure::Nome,
            ValidationFailure::Ie,
            ValidationFailure::RazaoSocial,
            ValidationFailure::DataNascimento,
            ValidationFailure::Sexo,
            ValidationFailure::Email,
            ValidationFailure::Telefone,
            ValidationFailure::SenhaCurta,
        ]
    );
    let one = CreateClientePayload { telefone: "1".to_string(), ..person() };
    assert_eq!(ClienteService::validate(&one), vec![ValidationFailure::Telefone]);
}

#[test]
fn registration_checks_passwords_then_fields_then_documents() {
    assert!(ClienteService::check(&person()).is_empty());
    let p = CreateClientePayload {
        confirmar_senha: "outra".to_string(),
        telefone: "1".to_string(),
        cpf: None,
        ..person()
    };
    assert_eq!(ClienteService::check(&p), vec![ValidationFailure::SenhasDiferentes]);
    let p = CreateClientePayload { telefone: "1".to_string(), cpf: None, ..person() };
    assert_eq!(ClienteService::check(&p), vec![ValidationFailure::Telefone]);
    let p = CreateClientePayload { cpf: None, ..person() };
    assert_eq!(ClienteService::check(&p), vec![ValidationFailure::CpfObrigatorio]);
}

#[test]
fn registration_prepares_the_customer_to_store() {
    let new = match ClienteService::create(person()) {
        Ok(new) => new,
        Err(_) => panic!("expected a customer"),
    };
    assert_eq!(new.id.len(), 36);
    assert_eq!(new.tipo_pessoa, "PF");
    assert_eq!(new.cpf.as_deref(), Some("529.982.247-25"));
    assert!(new.cnpj.is_none());
    assert_eq!(new.nome, "Maria da Silva");
    assert_eq!(new.email, "maria@exemplo.com");
    assert_eq!(new.telefone, "(11) 98765-4321");
    assert_eq!(new.sexo, "F");
    assert_eq!(new.data_nascimento, 726_526);
    assert_ne!(new.senha, "Segredo#2024");
    assert_eq!(compare_passwords("Segredo#2024", &new.senha).ok(), Some(true));
    assert_eq!(compare_passwords("Segredo#2025", &new.senha).ok(), Some(false));
    match ClienteService::create(CreateClientePayload { sexo: "?".to_string(), ..person() }) {
        Err(RegistrationError::Invalid { failures }) => {
            assert_eq!(failures, vec![ValidationFailure::Sexo])
        },
        _ => panic!("expected a refusal"),
    }
}

#[test]
fn an_unreadable_date_of_birth_is_stored_as_unknown() {
    let p = CreateClientePayload { data_nascimento: "?".to_string(), ..person() };
    let new = NewCliente::from_payload(p, "id".to_string(), "hash".to_string());
    assert_eq!(new.data_nascimento, 693_596);
    assert_eq!(new.id, "id");
    assert_eq!(new.senha, "hash");
    let p = CreateClientePayload { data_nascimento: "1970-01-01".to_string(), ..company() };
    let new = NewCliente::from_payload(p, "id".to_string(), "hash".to_string());
    assert_eq!(new.data_nascimento, 719_163);
    assert_eq!(new.cnpj.as_deref(), Some("11.222.333/0001-81"));
    assert_eq!(new.ie.as_deref(), Some("1234567"));
    assert_eq!(new.razao_social.as_deref(), Some("Loja Ltda"));
}

#[test]
fn sign_in_is_checked_and_looked_up_in_lower_case() {
    let ok = LoginPayload { email: "Maria@Exemplo.COM".to_string(), senha: "x".to_string() };
    assert_eq!(ClienteService::login(&ok), Ok("maria@exemplo.com".to_string()));
    let bad = LoginPayload { email: "maria".to_string(), senha: String::new() };
    assert_eq!(
        ClienteService::login(&bad),
        Err(vec![ValidationFailure::Email, ValidationFailure::SenhaObrigatoria])
    );
    let bad = LoginPayload { email: "maria@exemplo.com".to_string(), senha: String::new() };
    assert_eq!(ClienteService::login(&bad), Err(vec![ValidationFailure::SenhaObrigatoria]));
}

#[test]
fn sign_in_compares_the_password_with_the_stored_hash() {
    let stored = "$2b$04$EGdrhbKUv8Oc9vGiXX0HQOxSg445d458Muh7DAHskb6QbtCvdxcie";
    let payload = |senha: &str| LoginPayload { email: "a@b.c".to_string(), senha: senha.to_string() };
    assert_eq!(ClienteService::execute_login(&payload("correctbatteryhorsestapler"), stored), Ok(()));
    assert_eq!(
        ClienteService::execute_login(&payload("wrong"), stored),
        Err(LoginError::WrongPassword)
    );
    assert_eq!(
        ClienteService::execute_login(&payload("wrong"), "not a hash"),
        Err(LoginError::Unverifiable)
    );
}

#[test]
fn hashes_are_salted() {
    let a = hash_password("Segredo#2024").ok().unwrap();
    assert_ne!(a, "Segredo#2024");
    assert_eq!(compare_passwords("Segredo#2024", &a).ok(), Some(true));
}

#[test]
fn claims_expire_after_the_lifetime() {
    let config = AuthConfig::new(None);
    assert_eq!(config.secret, "seu_jwt_secret_aqui");
    assert_eq!(config.expires_in, 86_400);
    let config = AuthConfig::new(Some("outro".to_string()));
    assert_eq!(config.secret, "outro");
    assert_eq!(config.expires_in, 86_400);
    let claims = Claims::new("{}".to_string(), 1_000, 86_400).unwrap();
    assert_eq!(claims.cliente, "{}");
    assert_eq!(claims.exp, 87_400);
    assert!(Claims::new(String::new(), -10, 9).is_none());
    assert_eq!(Claims::new(String::new(), -10, 10).unwrap().exp, 0);
    assert!(Claims::new(String::new(), i64::MIN, 0).is_none());
    let now = ClienteService::claims_for("{\"id\":\"1\"}".to_string(), &config).unwrap();
    assert_eq!(now.cliente, "{\"id\":\"1\"}");
    assert!(now.exp > 1_600_000_000 + 86_400);
}

#[test]
fn bearer_tokens() {
    assert_eq!(Authentication::bearer_token("Bearer abc.def.ghi"), Ok("abc.def.ghi".to_string()));
    assert_eq!(Authentication::bearer_token("Bearer "), Ok(String::new()));
    assert_eq!(Authentication::bearer_token("Bearer çé"), Ok("çé".to_string()));
    for header in ["", "Bearer", "bearer abc", "Bearer  abc", "Bearer abc ", " Bearer abc", "Basic abc", "Bearer a b", "Bearerabc"] {
        assert_eq!(Authentication::bearer_token(header), Err(AuthFailure::MalformedHeader));
    }
    assert_eq!(Authentication::UNAUTHORIZED, 401);
    assert_eq!(AuthFailure::MissingHeader.message(), "Token de autenticação não informado.");
    assert_eq!(AuthFailure::UnreadableHeader.message(), "Header de autorização inválido.");
    assert_eq!(AuthFailure::MalformedHeader.message(), "Formato do token inválido.");
    assert_eq!(AuthFailure::InvalidToken.message(), "Token JWT inválido.");
    assert_eq!(AuthFailure::InvalidClaims.message(), "Dados do cliente inválidos no token.");
    assert_eq!(AuthFailure::MissingIdentifier.message(), "ID do cliente não encontrado no token.");
    let auth = ClienteAuth { id: "c-1".to_string() };
    assert_eq!(auth.id, "c-1");
}

#[test]
fn pages_of_a_listing() {
    let window = |page, page_size| ProdutoService::page_window(&QueryParams { page, page_size });
    assert_eq!(window(None, None), PageWindow { limit: 20, offset: 0 });
    assert_eq!(window(Some(1), Some(20)), PageWindow { limit: 20, offset: 0 });
    assert_eq!(window(Some(3), Some(15)), PageWindow { limit: 15, offset: 30 });
    assert_eq!(window(Some(3), Some(500)), PageWindow { limit: 100, offset: 200 });
    assert_eq!(window(Some(2), Some(100)), PageWindow { limit: 100, offset: 100 });
    assert_eq!(window(Some(2), Some(101)), PageWindow { limit: 100, offset: 100 });
    assert_eq!(window(Some(0), Some(10)), PageWindow { limit: 10, offset: 0 });
    assert_eq!(window(Some(5), Some(0)), PageWindow { limit: 0, offset: 0 });
    assert_eq!(
        window(Some(u32::MAX), Some(u32::MAX)),
        PageWindow { limit: 100, offset: 429_496_729_400 }
    );
    assert_eq!(ProdutoService::window(Some(2), None), PageWindow { limit: 20, offset: 20 });
}

#[test]
fn search_by_name() {
    let none = QueryParamsWithName { page: None, page_size: None, name: None };
    assert!(ProdutoService::name_search(&none).is_none());
    let some = QueryParamsWithName { page: Some(2), page_size: Some(10), name: Some("caf%é".to_string()) };
    assert_eq!(
        ProdutoService::name_search(&some),
        Some(("%caf%é%".to_string(), PageWindow { limit: 10, offset: 10 }))
    );
    let empty = QueryParamsWithName { page: None, page_size: None, name: Some(String::new()) };
    assert_eq!(
        ProdutoService::name_search(&empty),
        Some(("%%".to_string(), PageWindow { limit: 20, offset: 0 }))
    );
}

#[test]
fn home_shows_seven_categories_at_most() {
    let categories = |n: usize| -> Vec<CategoriaResumo> {
        (0..n).map(|i| CategoriaResumo { id: format!("c{}", i), nome: format!("n{}", i) }).collect()
    };
    for n in [0, 1, 7] {
        let all = categories(n);
        let picked = HomeService::pick_categories(&all);
        let ids: Vec<&str> = picked.iter().map(|c| c.id.as_str()).collect();
        let expected: Vec<&str> = all.iter().map(|c| c.id.as_str()).collect();
        assert_eq!(ids, expected);
    }
    let all = categories(30);
    let first: Vec<String> = all.iter().take(7).map(|c| c.id.clone()).collect();
    let moved = (0..20).any(|_| {
        let picked = HomeService::pick_categories(&all);
        picked.iter().map(|c| c.id.clone()).collect::<Vec<String>>() != first
    });
    assert!(moved);
    for n in [8, 30] {
        let all = categories(n);
        let picked = HomeService::pick_categories(&all);
        assert_eq!(picked.len(), 7);
        let mut ids: Vec<&str> = picked.iter().map(|c| c.id.as_str()).collect();
        for c in &picked {
            assert!(all.iter().any(|a| a.id == c.id && a.nome == c.nome));
        }
        ids.sort();
        ids.dedup();
        assert_eq!(ids.len(), 7);
    }
}

#[test]
fn duplicates_are_told_by_constraint_or_by_words() {
    let by = |c: &str| ClienteDal::duplicate_field(Some(c), "email cpf");
    assert_eq!(by("clientes_email_key"), DuplicateField::Email);
    assert_eq!(by("idx_clientes_email"), DuplicateField::Email);
    assert_eq!(by("clientes_cpf_key"), DuplicateField::Cpf);
    assert_eq!(by("idx_clientes_cpf"), DuplicateField::Cpf);
    assert_eq!(by("clientes_cnpj_key"), DuplicateField::Cnpj);
    assert_eq!(by("idx_clientes_cnpj"), DuplicateField::Cnpj);
    assert_eq!(by("clientes_telefone_key"), DuplicateField::Telefone);
    assert_eq!(by("idx_clientes_telefone"), DuplicateField::Telefone);
    assert_eq!(by("clientes_pkey"), DuplicateField::Other);
    assert_eq!(by(""), DuplicateField::Other);
    let words = |d: &str| ClienteDal::duplicate_field(None, d);
    assert_eq!(words("Key (email)=(a@b.c) already exists"), DuplicateField::Email);
    assert_eq!(words("Key (cpf)=(1) already exists"), DuplicateField::Cpf);
    assert_eq!(words("Key (cnpj)=(1) already exists"), DuplicateField::Cnpj);
    assert_eq!(words("Key (telefone)=(1) already exists"), DuplicateField::Telefone);
    assert_eq!(words("telefone cnpj cpf email"), DuplicateField::Email);
    assert_eq!(words("telefone cnpj"), DuplicateField::Cnpj);
    assert_eq!(words("Key (id)=(1) already exists"), DuplicateField::Unnamed);
    assert_eq!(words("EMAIL"), DuplicateField::Unnamed);
    assert_eq!(words(""), DuplicateField::Unnamed);
    assert_eq!(DuplicateField::Email.message(), "Cliente com email já cadastrado");
    assert_eq!(DuplicateField::Cpf.message(), "Cliente com CPF já cadastrado");
    assert_eq!(DuplicateField::Cnpj.message(), "Cliente com CNPJ já cadastrado");
    assert_eq!(DuplicateField::Telefone.message(), "Cliente com telefone já cadastrado");
    assert_eq!(DuplicateField::Other.message(), "Cliente já cadastrado com esses dados");
    assert_eq!(DuplicateField::Unnamed.message(), "Cliente já cadastrado");
}

#[test]
fn texts() {
    assert_eq!(chars_of("aç😀"), vec!['a', 'ç', '😀']);
    assert!(chars_of("").is_empty());
    assert_eq!(digits_of(&chars_of("a1-2٣b3")), vec!['1', '2', '3']);
    assert!(contains_text("abc", ""));
    assert!(contains_text("", ""));
    assert!(!contains_text("", "a"));
    assert!(contains_text("abc", "abc"));
    assert!(contains_text("xxabc", "abc"));
    assert!(contains_text("abcxx", "abc"));
    assert!(contains_text("ababc", "abc"));
    assert!(!contains_text("abab", "abc"));
    assert!(!contains_text("ab", "abc"));
    for (text, pattern) in [("ação", "çã"), ("ação", "ca"), ("aaa", "aa"), ("aab", "ab")] {
        assert_eq!(contains_text(text, pattern), text.contains(pattern));
    }
}

#[test]
fn validation_errors_in_words() {
    let error = ValidationError::new(&vec![ValidationFailure::CpfInvalid, ValidationFailure::Sexo]);
    assert_eq!(error.status, "error");
    assert_eq!(error.message, "Erro de validação");
    assert_eq!(error.errors, vec!["CPF inválido", "Sexo deve ser M, F ou N"]);
    assert!(ValidationError::new(&Vec::new()).errors.is_empty());
    let all = [
        (ValidationFailure::CpfLength, "CPF deve ter 11 dígitos"),
        (ValidationFailure::CpfInvalid, "CPF inválido"),
        (ValidationFailure::CnpjLength, "CNPJ deve ter 14 dígitos"),
        (ValidationFailure::CnpjInvalid, "CNPJ inválido"),
        (ValidationFailure::SenhaCurta, "A senha deve ter pelo menos 8 caracteres"),
        (ValidationFailure::SenhaSemMaiuscula, "A senha deve conter pelo menos uma letra maiúscula"),
        (ValidationFailure::SenhaSemMinuscula, "A senha deve conter pelo menos uma letra minúscula"),
        (ValidationFailure::SenhaSemNumero, "A senha deve conter pelo menos um número"),
        (ValidationFailure::SenhaSemEspecial, "A senha deve conter pelo menos um caractere especial"),
        (ValidationFailure::Telefone, "Telefone deve ter entre 10 e 14 dígitos"),
        (ValidationFailure::DataNascimento, "Data de nascimento inválida (formato: YYYY-MM-DD)"),
        (ValidationFailure::Ie, "IE deve ter entre 7 e 14 caracteres"),
        (ValidationFailure::CpfObrigatorio, "CPF é obrigatório para pessoa física"),
        (ValidationFailure::CnpjNaoPermitido, "CNPJ não deve ser informado para pessoa física"),
        (ValidationFailure::CnpjObrigatorio, "CNPJ é obrigatório para pessoa jurídica"),
        (ValidationFailure::CpfNaoPermitido, "CPF não deve ser informado para pessoa jurídica"),
        (ValidationFailure::RazaoSocialObrigatoria, "Razão social é obrigatória para pessoa jurídica"),
        (ValidationFailure::TipoPessoa, "Tipo de pessoa deve ser PF ou PJ"),
        (ValidationFailure::Sexo, "Sexo deve ser M, F ou N"),
        (ValidationFailure::Nome, "Nome deve ter entre 1 e 60 caracteres"),
        (ValidationFailure::RazaoSocial, "Razão social deve ter no máximo 60 caracteres"),
        (ValidationFailure::Email, "Formato de email inválido"),
        (ValidationFailure::SenhaObrigatoria, "Senha é obrigatória"),
        (ValidationFailure::SenhasDiferentes, "Senhas não coincidem"),
    ];
    for (failure, words) in all {
        assert_eq!(failure.message(), words);
    }
}

fn selected(campos: &str) -> Option<(Vec<(String, String)>, bool)> {
    match ProdutoDal::field_selection(campos) {
        FieldSelection::All => None,
        FieldSelection::Only { fields, with_categoria } => {
            Some((fields.into_iter().map(|f| (f.name, f.key)).collect(), with_categoria))
        },
    }
}

fn pairs(fields: &[(&str, &str)]) -> Vec<(String, String)> {
    fields.iter().map(|(n, k)| (n.to_string(), k.to_string())).collect()
}

#[test]
fn lists_of_fields() {
    for all in ["", " ", "\t \n", "null", "\u{2003}"] {
        assert!(selected(all).is_none());
    }
    assert_eq!(
        selected("sku, produtos.nome, foto"),
        Some((pairs(&[("sku", "sku"), ("produtos.nome", "produtos.nome"), ("foto", "foto")]), false))
    );
    assert_eq!(
        selected(" id_categoria ,created_at,updated_at"),
        Some((
            pairs(&[
                ("id_categoria", "idCategoria"),
                ("created_at", "createdAt"),
                ("updated_at", "updatedAt"),
            ]),
            true
        ))
    );
    assert_eq!(
        selected("sku,idCategoria"),
        Some((pairs(&[("sku", "sku"), ("idCategoria", "idCategoria")]), true))
    );
    assert_eq!(selected("a,,b"), Some((pairs(&[("a", "a"), ("", ""), ("b", "b")]), false)));
    assert_eq!(selected("a,"), Some((pairs(&[("a", "a"), ("", "")]), false)));
    assert_eq!(selected(","), Some((pairs(&[("", ""), ("", "")]), false)));
    assert_eq!(selected(" null"), Some((pairs(&[("null", "null")]), false)));
    assert_eq!(selected("Id_Categoria"), Some((pairs(&[("Id_Categoria", "Id_Categoria")]), false)));
    assert_eq!(selected("preço , ação"), Some((pairs(&[("preço", "preço"), ("ação", "ação")]), false)));
}

#[test]
fn lists_of_fields_split_as_std_splits_them() {
    for campos in ["a", "a,b", ",a", "a,,", " a , b ,c ", "x,id_categoria,y", ",,,"] {
        let (fields, with_categoria) = selected(campos).unwrap();
        let names: Vec<&str> = campos.split(',').map(|c| c.trim()).collect();
        let got: Vec<&str> = fields.iter().map(|f| f.0.as_str()).collect();
        assert_eq!(got, names);
        assert_eq!(with_categoria, names.iter().any(|n| *n == "id_categoria" || *n == "idCategoria"));
    }
}
