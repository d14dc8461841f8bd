//! The rules for the data of a new customer.

use crate::models::cliente::{CreateClientePayload, CreateClientePayloadView};
use crate::utils::tabela_frete::is_digit;
use crate::utils::text::chars_of;
use vstd::prelude::*;
use vstd::string::*;
use vstd::utf8::encode_utf8;

verus! {

/// The rule that a customer's data fails.
#[derive(Clone, Copy, Debug, PartialEq, Eq, Structural)]
pub enum ValidationFailure {
    CpfLength,
    CpfInvalid,
    CnpjLength,
    CnpjInvalid,
    SenhaCurta,
    SenhaSemMaiuscula,
    SenhaSemMinuscula,
    SenhaSemNumero,
    SenhaSemEspecial,
    Telefone,
    DataNascimento,
    Ie,
    CpfObrigatorio,
    CnpjNaoPermitido,
    CnpjObrigatorio,
    CpfNaoPermitido,
    RazaoSocialObrigatoria,
    TipoPessoa,
    Sexo,
    Nome,
    RazaoSocial,
    Email,
    SenhaObrigatoria,
    SenhasDiferentes,
}

impl ValidationFailure {
    /// The words of the rule that failed.
    pub open spec fn text(self) -> Seq<char> {
        match self {
            ValidationFailure::CpfLength => "CPF deve ter 11 dígitos"@,
            ValidationFailure::CpfInvalid => "CPF inválido"@,
            ValidationFailure::CnpjLength => "CNPJ deve ter 14 dígitos"@,
            ValidationFailure::CnpjInvalid => "CNPJ inválido"@,
            ValidationFailure::SenhaCurta => "A senha deve ter pelo menos 8 caracteres"@,
            ValidationFailure::SenhaSemMaiuscula => "A senha deve conter pelo menos uma letra maiúscula"@,
            ValidationFailure::SenhaSemMinuscula => "A senha deve conter pelo menos uma letra minúscula"@,
            ValidationFailure::SenhaSemNumero => "A senha deve conter pelo menos um número"@,
            ValidationFailure::SenhaSemEspecial => "A senha deve conter pelo menos um caractere especial"@,
            ValidationFailure::Telefone => "Telefone deve ter entre 10 e 14 dígitos"@,
            ValidationFailure::DataNascimento => "Data de nascimento inválida (formato: YYYY-MM-DD)"@,
            ValidationFailure::Ie => "IE deve ter entre 7 e 14 caracteres"@,
            ValidationFailure::CpfObrigatorio => "CPF é obrigatório para pessoa física"@,
            ValidationFailure::CnpjNaoPermitido => "CNPJ não deve ser informado para pessoa física"@,
            ValidationFailure::CnpjObrigatorio => "CNPJ é obrigatório para pessoa jurídica"@,
            ValidationFailure::CpfNaoPermitido => "CPF não deve ser informado para pessoa jurídica"@,
            ValidationFailure::RazaoSocialObrigatoria => "Razão social é obrigatória para pessoa jurídica"@,
            ValidationFailure::TipoPessoa => "Tipo de pessoa deve ser PF ou PJ"@,
            ValidationFailure::Sexo => "Sexo deve ser M, F ou N"@,
            ValidationFailure::Nome => "Nome deve ter entre 1 e 60 caracteres"@,
            ValidationFailure::RazaoSocial => "Razão social deve ter no máximo 60 caracteres"@,
            ValidationFailure::Email => "Formato de email inválido"@,
            ValidationFailure::SenhaObrigatoria => "Senha é obrigatória"@,
            ValidationFailure::SenhasDiferentes => "Senhas não coincidem"@,
        }
    }

    /// The words of the rule that failed.
    pub fn message(&self) -> (words: String)
        ensures
            words@ == self.text(),
    {
        let words = match self {
            ValidationFailure::CpfLength => "CPF deve ter 11 dígitos",
            ValidationFailure::CpfInvalid => "CPF inválido",
            ValidationFailure::CnpjLength => "CNPJ deve ter 14 dígitos",
            ValidationFailure::CnpjInvalid => "CNPJ inválido",
            ValidationFailure::SenhaCurta => "A senha deve ter pelo menos 8 caracteres",
            ValidationFailure::SenhaSemMaiuscula => "A senha deve conter pelo menos uma letra maiúscula",
            ValidationFailure::SenhaSemMinuscula => "A senha deve conter pelo menos uma letra minúscula",
            ValidationFailure::SenhaSemNumero => "A senha deve conter pelo menos um número",
            ValidationFailure::SenhaSemEspecial => "A senha deve conter pelo menos um caractere especial",
            ValidationFailure::Telefone => "Telefone deve ter entre 10 e 14 dígitos",
            ValidationFailure::DataNascimento => "Data de nascimento inválida (formato: YYYY-MM-DD)",
            ValidationFailure::Ie => "IE deve ter entre 7 e 14 caracteres",
            ValidationFailure::CpfObrigatorio => "CPF é obrigatório para pessoa física",
            ValidationFailure::CnpjNaoPermitido => "CNPJ não deve ser informado para pessoa física",
            ValidationFailure::CnpjObrigatorio => "CNPJ é obrigatório para pessoa jurídica",
            ValidationFailure::CpfNaoPermitido => "CPF não deve ser informado para pessoa jurídica",
            ValidationFailure::RazaoSocialObrigatoria => "Razão social é obrigatória para pessoa jurídica",
            ValidationFailure::TipoPessoa => "Tipo de pessoa deve ser PF ou PJ",
            ValidationFailure::Sexo => "Sexo deve ser M, F ou N",
            ValidationFailure::Nome => "Nome deve ter entre 1 e 60 caracteres",
            ValidationFailure::RazaoSocial => "Razão social deve ter no máximo 60 caracteres",
            ValidationFailure::Email => "Formato de email inválido",
            ValidationFailure::SenhaObrigatoria => "Senha é obrigatória",
            ValidationFailure::SenhasDiferentes => "Senhas não coincidem",
        };
        String::from_str(words)
    }
}

/// Whether `c` is an upper-case character, as Unicode has it.
pub uninterp spec fn is_uppercase(c: char) -> bool;

/// Whether `c` is a lower-case character, as Unicode has it.
pub uninterp spec fn is_lowercase(c: char) -> bool;

/// Whether `c` is a letter or a number, as Unicode has it.
pub uninterp spec fn is_alphanumeric(c: char) -> bool;

/// The day that `text` writes, read as year-month-day the way `chrono` reads
/// the format `%Y-%m-%d`, counted from the first day of the year 1, which is
/// day 1; `None` where `text` writes no day of the calendar in that form.
pub uninterp spec fn calendar_day(text: Seq<char>) -> Option<int>;

/// Tells whether `c` is upper case.
///
/// Calls `char::is_uppercase` of std, which goes by the Unicode tables; the
/// contract gives its answer a name and claims nothing else of it.
#[verifier::external_body]
fn char_is_uppercase(c: char) -> (b: bool)
    ensures
        b == is_uppercase(c),
{
    c.is_uppercase()
}

/// Tells whether `c` is lower case.
///
/// Calls `char::is_lowercase` of std, which goes by the Unicode tables; the
/// contract gives its answer a name and claims nothing else of it.
#[verifier::external_body]
fn char_is_lowercase(c: char) -> (b: bool)
    ensures
        b == is_lowercase(c),
{
    c.is_lowercase()
}

/// Tells whether `c` is a letter or a number.
///
/// Calls `char::is_alphanumeric` of std, which goes by the Unicode tables;
/// the contract gives its answer a name and claims nothing else of it.
#[verifier::external_body]
fn char_is_alphanumeric(c: char) -> (b: bool)
    ensures
        b == is_alphanumeric(c),
{
    c.is_alphanumeric()
}

/// Reads a day written as year-month-day.
///
/// Calls `chrono::NaiveDate::parse_from_str` with the format `%Y-%m-%d` and,
/// where it succeeds, takes `num_days_from_ce` of the date. The contract
/// gives the outcome a name: it depends on the text alone.
#[verifier::external_body]
pub(crate) fn parse_calendar_day(text: &str) -> (day: Option<i32>)
    ensures
        calendar_day(text@) == match day {
            Some(d) => Some(d as int),
            None => None,
        },
{
    match chrono::NaiveDate::parse_from_str(text, "%Y-%m-%d") {
        Ok(date) => Some(chrono::Datelike::num_days_from_ce(&date)),
        Err(_) => None,
    }
}

/// The decimal digits of `s`, in order.
pub open spec fn only_digits(s: Seq<char>) -> Seq<char> {
    s.filter(|c: char| is_digit(c))
}

/// The number that the digit `c` writes.
pub open spec fn digit_value(c: char) -> int {
    c as int - '0' as int
}

/// Whether all the characters of `s` are the same.
pub open spec fn all_same(s: Seq<char>) -> bool {
    forall|i: int| 0 <= i < s.len() ==> #[trigger] s[i] == s[0]
}

/// The sum of the first `n` digits of `d`, the digit at `i` weighted by
/// `weight(i)`.
pub open spec fn weighted_sum(d: Seq<char>, n: int, weight: spec_fn(int) -> int) -> int
    decreases n,
{
    if n <= 0 {
        0
    } else {
        weighted_sum(d, n - 1, weight) + digit_value(d[n - 1]) * weight(n - 1)
    }
}

/// The weights of a CPF check digit over the `n` digits before it: they fall
/// from `n + 1` to 2.
pub open spec fn cpf_weight(n: int) -> spec_fn(int) -> int {
    |i: int| n + 1 - i
}

/// The check digit of a CPF over its first `n` digits.
pub open spec fn cpf_check_digit(d: Seq<char>, n: int) -> int {
    let r = (weighted_sum(d, n, cpf_weight(n)) * 10) % 11;
    if r == 10 {
        0
    } else {
        r
    }
}

/// What the CPF rule says of `text`: its digits, whatever stands between
/// them, must be eleven, not all the same, with the tenth and the eleventh
/// the check digits of those before them.
pub open spec fn cpf_verdict(text: Seq<char>) -> Result<(), ValidationFailure> {
    let d = only_digits(text);
    if d.len() != 11 {
        Err(ValidationFailure::CpfLength)
    } else if all_same(d) {
        Err(ValidationFailure::CpfInvalid)
    } else if cpf_check_digit(d, 9) != digit_value(d[9]) {
        Err(ValidationFailure::CpfInvalid)
    } else if cpf_check_digit(d, 10) != digit_value(d[10]) {
        Err(ValidationFailure::CpfInvalid)
    } else {
        Ok(())
    }
}

/// The weights of the CNPJ check digits: for the first, over twelve digits,
/// they start at 5; for the second, over thirteen, at 6; they fall to 2 and
/// start again at 9.
pub open spec fn cnpj_weight(n: int) -> spec_fn(int) -> int {
    |i: int|
        if i < n - 8 {
            n - 7 - i
        } else {
            n + 1 - i
        }
}

/// The check digit of a CNPJ over its first `n` digits.
pub open spec fn cnpj_check_digit(d: Seq<char>, n: int) -> int {
    let r = weighted_sum(d, n, cnpj_weight(n)) % 11;
    if r < 2 {
        0
    } else {
        11 - r
    }
}

/// What the CNPJ rule says of `text`: its digits must be fourteen, not all
/// the same, with the last two the check digits of those before them.
pub open spec fn cnpj_verdict(text: Seq<char>) -> Result<(), ValidationFailure> {
    let d = only_digits(text);
    if d.len() != 14 {
        Err(ValidationFailure::CnpjLength)
    } else if all_same(d) {
        Err(ValidationFailure::CnpjInvalid)
    } else if cnpj_check_digit(d, 12) != digit_value(d[12]) || cnpj_check_digit(d, 13)
        != digit_value(d[13]) {
        Err(ValidationFailure::CnpjInvalid)
    } else {
        Ok(())
    }
}

/// Whether some character of `s` meets `p`.
pub open spec fn some_char(s: Seq<char>, p: spec_fn(char) -> bool) -> bool {
    exists|i: int| 0 <= i < s.len() && p(#[trigger] s[i])
}

/// What the password rule says of `text`: eight bytes or more, with an
/// upper-case character, a lower-case one, a digit, and one that is neither
/// letter nor number. The first rule that fails is the verdict.
pub open spec fn senha_verdict(text: Seq<char>) -> Result<(), ValidationFailure> {
    if encode_utf8(text).len() < 8 {
        Err(ValidationFailure::SenhaCurta)
    } else if !some_char(text, |c: char| is_uppercase(c)) {
        Err(ValidationFailure::SenhaSemMaiuscula)
    } else if !some_char(text, |c: char| is_lowercase(c)) {
        Err(ValidationFailure::SenhaSemMinuscula)
    } else if !some_char(text, |c: char| is_digit(c)) {
        Err(ValidationFailure::SenhaSemNumero)
    } else if !some_char(text, |c: char| !is_alphanumeric(c)) {
        Err(ValidationFailure::SenhaSemEspecial)
    } else {
        Ok(())
    }
}

/// What the telephone rule says of `text`: from ten to fourteen digits.
pub open spec fn telefone_verdict(text: Seq<char>) -> Result<(), ValidationFailure> {
    if 10 <= only_digits(text).len() <= 14 {
        Ok(())
    } else {
        Err(ValidationFailure::Telefone)
    }
}

/// What the state registration rule says of `text`: empty, or from seven to
/// fourteen bytes.
pub open spec fn ie_verdict(text: Seq<char>) -> Result<(), ValidationFailure> {
    if text.len() != 0 && !(7 <= encode_utf8(text).len() <= 14) {
        Err(ValidationFailure::Ie)
    } else {
        Ok(())
    }
}

/// What the date of birth rule says of `text`: it must write a day of the
/// calendar as year-month-day.
pub open spec fn data_nascimento_verdict(text: Seq<char>) -> Result<(), ValidationFailure> {
    if calendar_day(text) is Some {
        Ok(())
    } else {
        Err(ValidationFailure::DataNascimento)
    }
}

/// What the rule on the kind of person says of `text`: `PF` or `PJ`.
pub open spec fn tipo_pessoa_verdict(text: Seq<char>) -> Result<(), ValidationFailure> {
    if text == "PF"@ || text == "PJ"@ {
        Ok(())
    } else {
        Err(ValidationFailure::TipoPessoa)
    }
}

/// What the rule on the sex says of `text`: `M`, `F` or `N`.
pub open spec fn sexo_verdict(text: Seq<char>) -> Result<(), ValidationFailure> {
    if text == "M"@ || text == "F"@ || text == "N"@ {
        Ok(())
    } else {
        Err(ValidationFailure::Sexo)
    }
}

/// Whether an optional text is there and not empty.
pub open spec fn is_filled(text: Option<Seq<char>>) -> bool {
    match text {
        Some(t) => t.len() > 0,
        None => false,
    }
}

/// What the kind of person demands of the documents: a person gives a CPF
/// and no CNPJ; a company gives a CNPJ and a company name, and no CPF.
pub open spec fn consistency_verdict(payload: CreateClientePayloadView) -> Result<
    (),
    ValidationFailure,
> {
    if payload.tipo_pessoa == "PF"@ {
        if !is_filled(payload.cpf) {
            Err(ValidationFailure::CpfObrigatorio)
        } else if is_filled(payload.cnpj) {
            Err(ValidationFailure::CnpjNaoPermitido)
        } else {
            Ok(())
        }
    } else if payload.tipo_pessoa == "PJ"@ {
        if !is_filled(payload.cnpj) {
            Err(ValidationFailure::CnpjObrigatorio)
        } else if is_filled(payload.cpf) {
            Err(ValidationFailure::CpfNaoPermitido)
        } else if !is_filled(payload.razao_social) {
            Err(ValidationFailure::RazaoSocialObrigatoria)
        } else {
            Ok(())
        }
    } else {
        Err(ValidationFailure::TipoPessoa)
    }
}

/// The decimal digits of `chars`, in order.
pub fn digits_of(chars: &Vec<char>) -> (digits: Vec<char>)
    ensures
        digits@ == only_digits(chars@),
        forall|i: int| 0 <= i < digits.len() ==> is_digit(#[trigger] digits@[i]),
{
    let n = chars.len();
    let mut digits: Vec<char> = Vec::new();
    let mut i: usize = 0;
    proof {
        assert(chars@.take(0) =~= Seq::empty());
        assert(only_digits(chars@.take(0)) =~= Seq::empty());
    }
    while i < n
        invariant
            i <= n,
            n == chars.len(),
            digits@ == only_digits(chars@.take(i as int)),
            forall|k: int| 0 <= k < digits.len() ==> is_digit(#[trigger] digits@[k]),
        decreases n - i,
    {
        let c = chars[i];
        proof {
            assert(chars@.take(i + 1).drop_last() =~= chars@.take(i as int));
            assert(chars@.take(i + 1).last() == c);
            reveal(Seq::filter);
        }
        if c >= '0' && c <= '9' {
            digits.push(c);
        }
        i = i + 1;
    }
    proof {
        assert(chars@.take(n as int) =~= chars@);
    }
    digits
}

/// Tells whether all the characters of `chars` are the same.
fn is_uniform(chars: &Vec<char>) -> (same: bool)
    ensures
        same == all_same(chars@),
{
    let n = chars.len();
    let mut i: usize = 1;
    while i < n
        invariant
            1 <= i,
            n == chars.len(),
            forall|k: int| 0 <= k < i && k < n ==> #[trigger] chars@[k] == chars@[0],
        decreases n - i,
    {
        if chars[i] != chars[0] {
            return false;
        }
        i = i + 1;
    }
    true
}

/// The number that the digit at `i` writes.
fn digit_at(digits: &Vec<char>, i: usize) -> (value: u32)
    requires
        i < digits.len(),
        is_digit(digits@[i as int]),
    ensures
        value == digit_value(digits@[i as int]),
        value <= 9,
{
    digits[i] as u32 - '0' as u32
}

/// The sum over the first `n` digits for a CPF check digit.
fn cpf_sum(digits: &Vec<char>, n: usize) -> (sum: u32)
    requires
        n <= digits.len(),
        n <= 16,
        forall|i: int| 0 <= i < digits.len() ==> is_digit(#[trigger] digits@[i]),
    ensures
        sum == weighted_sum(digits@, n as int, cpf_weight(n as int)),
        sum <= 153 * n,
{
    let mut sum: u32 = 0;
    let mut i: usize = 0;
    while i < n
        invariant
            i <= n <= 16,
            n <= digits.len(),
            forall|k: int| 0 <= k < digits.len() ==> is_digit(#[trigger] digits@[k]),
            sum == weighted_sum(digits@, i as int, cpf_weight(n as int)),
            sum <= 153 * i,
        decreases n - i,
    {
        let value = digit_at(digits, i);
        let weight: u32 = (n + 1 - i) as u32;
        assert(value * weight <= 153) by (nonlinear_arith)
            requires
                value <= 9,
                weight <= 17,
        ;
        assert(cpf_weight(n as int)(i as int) == weight);
        sum = sum + value * weight;
        i = i + 1;
    }
    sum
}

/// The sum over the first `n` digits for a CNPJ check digit.
fn cnpj_sum(digits: &Vec<char>, n: usize) -> (sum: u32)
    requires
        n <= digits.len(),
        8 <= n <= 16,
        forall|i: int| 0 <= i < digits.len() ==> is_digit(#[trigger] digits@[i]),
    ensures
        sum == weighted_sum(digits@, n as int, cnpj_weight(n as int)),
        sum <= 153 * n,
{
    let mut sum: u32 = 0;
    let mut i: usize = 0;
    while i < n
        invariant
            i <= n <= 16,
            8 <= n,
            n <= digits.len(),
            forall|k: int| 0 <= k < digits.len() ==> is_digit(#[trigger] digits@[k]),
            sum == weighted_sum(digits@, i as int, cnpj_weight(n as int)),
            sum <= 153 * i,
        decreases n - i,
    {
        let value = digit_at(digits, i);
        let weight: u32 = if i < n - 8 {
            (n - 7 - i) as u32
        } else {
            (n + 1 - i) as u32
        };
        assert(value * weight <= 153) by (nonlinear_arith)
            requires
                value <= 9,
                weight <= 17,
        ;
        assert(cnpj_weight(n as int)(i as int) == weight);
        sum = sum + value * weight;
        i = i + 1;
    }
    sum
}

/// Checks a CPF.
pub fn validate_cpf(cpf: &str) -> (verdict: Result<(), ValidationFailure>)
    ensures
        verdict == cpf_verdict(cpf@),
{
    let digits = digits_of(&chars_of(cpf));
    if digits.len() != 11 {
        return Err(ValidationFailure::CpfLength);
    }
    if is_uniform(&digits) {
        return Err(ValidationFailure::CpfInvalid);
    }
    let mut first = (cpf_sum(&digits, 9) * 10) % 11;
    if first == 10 {
        first = 0;
    }
    if first != digit_at(&digits, 9) {
        return Err(ValidationFailure::CpfInvalid);
    }
    let mut second = (cpf_sum(&digits, 10) * 10) % 11;
    if second == 10 {
        second = 0;
    }
    if second != digit_at(&digits, 10) {
        return Err(ValidationFailure::CpfInvalid);
    }
    Ok(())
}

/// Checks a CNPJ.
pub fn validate_cnpj(cnpj: &str) -> (verdict: Result<(), ValidationFailure>)
    ensures
        verdict == cnpj_verdict(cnpj@),
{
    let digits = digits_of(&chars_of(cnpj));
    if digits.len() != 14 {
        return Err(ValidationFailure::CnpjLength);
    }
    if is_uniform(&digits) {
        return Err(ValidationFailure::CnpjInvalid);
    }
    let r1 = cnpj_sum(&digits, 12) % 11;
    let first = if r1 < 2 {
        0
    } else {
        11 - r1
    };
    let r2 = cnpj_sum(&digits, 13) % 11;
    let second = if r2 < 2 {
        0
    } else {
        11 - r2
    };
    if first != digit_at(&digits, 12) || second != digit_at(&digits, 13) {
        return Err(ValidationFailure::CnpjInvalid);
    }
    Ok(())
}

/// Checks that a password is strong.
pub fn validate_senha_forte(senha: &str) -> (verdict: Result<(), ValidationFailure>)
    ensures
        verdict == senha_verdict(senha@),
{
    if senha.as_bytes().len() < 8 {
        return Err(ValidationFailure::SenhaCurta);
    }
    let chars = chars_of(senha);
    let n = chars.len();
    let mut upper = false;
    let mut lower = false;
    let mut digit = false;
    let mut special = false;
    let mut i: usize = 0;
    while i < n
        invariant
            i <= n,
            n == chars.len(),
            upper == some_char(chars@.take(i as int), |c: char| is_uppercase(c)),
            lower == some_char(chars@.take(i as int), |c: char| is_lowercase(c)),
            digit == some_char(chars@.take(i as int), |c: char| is_digit(c)),
            special == some_char(chars@.take(i as int), |c: char| !is_alphanumeric(c)),
        decreases n - i,
    {
        let c = chars[i];
        let ghost before = chars@.take(i as int);
        let ghost after = chars@.take(i + 1);
        proof {
            assert(after[i as int] == c);
            assert forall|p: spec_fn(char) -> bool| #[trigger]
                some_char(after, p) == (some_char(before, p) || p(c)) by {
                if some_char(before, p) {
                    let k = choose|k: int| 0 <= k < before.len() && p(#[trigger] before[k]);
                    assert(after[k] == before[k]);
                }
                if some_char(after, p) {
                    let k = choose|k: int| 0 <= k < after.len() && p(#[trigger] after[k]);
                    if k < i {
                        assert(before[k] == after[k]);
                    }
                }
            }
        }
        upper = upper || char_is_uppercase(c);
        lower = lower || char_is_lowercase(c);
        digit = digit || (c >= '0' && c <= '9');
        special = special || !char_is_alphanumeric(c);
        i = i + 1;
    }
    proof {
        assert(chars@.take(n as int) =~= chars@);
    }
    if !upper {
        Err(ValidationFailure::SenhaSemMaiuscula)
    } else if !lower {
        Err(ValidationFailure::SenhaSemMinuscula)
    } else if !digit {
        Err(ValidationFailure::SenhaSemNumero)
    } else if !special {
        Err(ValidationFailure::SenhaSemEspecial)
    } else {
        Ok(())
    }
}

/// Checks a telephone number.
pub fn validate_telefone(telefone: &str) -> (verdict: Result<(), ValidationFailure>)
    ensures
        verdict == telefone_verdict(telefone@),
{
    let digits = digits_of(&chars_of(telefone));
    if digits.len() < 10 || digits.len() > 14 {
        Err(ValidationFailure::Telefone)
    } else {
        Ok(())
    }
}

/// Checks a date of birth: it must be a day of the calendar, written as
/// year-month-day.
pub fn validate_data_nascimento(data: &str) -> (verdict: Result<(), ValidationFailure>)
    ensures
        verdict == data_nascimento_verdict(data@),
{
    match parse_calendar_day(data) {
        Some(_) => Ok(()),
        None => Err(ValidationFailure::DataNascimento),
    }
}

/// Checks a state registration.
pub fn validate_ie(ie: &str) -> (verdict: Result<(), ValidationFailure>)
    ensures
        verdict == ie_verdict(ie@),
{
    let bytes = ie.as_bytes().len();
    if !ie.is_empty() && (bytes < 7 || bytes > 14) {
        Err(ValidationFailure::Ie)
    } else {
        Ok(())
    }
}

/// Tells whether an optional text is there and not empty.
pub fn filled(text: &Option<String>) -> (b: bool)
    ensures
        b == is_filled(crate::models::pedido::optional_text_view(*text)),
{
    match text {
        Some(t) => !t.as_str().is_empty(),
        None => false,
    }
}

/// Checks that the documents given fit the kind of person.
pub fn validate_tipo_pessoa_consistency(payload: &CreateClientePayload) -> (verdict: Result<
    (),
    ValidationFailure,
>)
    ensures
        verdict == consistency_verdict(payload@),
{
    if payload.tipo_pessoa == String::from_str("PF") {
        if !filled(&payload.cpf) {
            Err(ValidationFailure::CpfObrigatorio)
        } else if filled(&payload.cnpj) {
            Err(ValidationFailure::CnpjNaoPermitido)
        } else {
            Ok(())
        }
    } else if payload.tipo_pessoa == String::from_str("PJ") {
        if !filled(&payload.cnpj) {
            Err(ValidationFailure::CnpjObrigatorio)
        } else if filled(&payload.cpf) {
            Err(ValidationFailure::CpfNaoPermitido)
        } else if !filled(&payload.razao_social) {
            Err(ValidationFailure::RazaoSocialObrigatoria)
        } else {
            Ok(())
        }
    } else {
        Err(ValidationFailure::TipoPessoa)
    }
}

/// Checks the kind of person: `PF` or `PJ`.
pub fn validate_tipo_pessoa(tipo_pessoa: &str) -> (verdict: Result<(), ValidationFailure>)
    ensures
        verdict == tipo_pessoa_verdict(tipo_pessoa@),
{
    let given = String::from_str(tipo_pessoa);
    if given == String::from_str("PF") || given == String::from_str("PJ") {
        Ok(())
    } else {
        Err(ValidationFailure::TipoPessoa)
    }
}

/// Checks the sex: `M`, `F` or `N`.
pub fn validate_sexo(sexo: &str) -> (verdict: Result<(), ValidationFailure>)
    ensures
        verdict == sexo_verdict(sexo@),
{
    let given = String::from_str(sexo);
    if given == String::from_str("M") || given == String::from_str("F") || given
        == String::from_str("N") {
        Ok(())
    } else {
        Err(ValidationFailure::Sexo)
    }
}

} // verus!
