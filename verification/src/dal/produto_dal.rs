//! Listings of products: which fields of a product a listing shows.

use crate::models::produto::seq_view;
use crate::utils::search::{first_such, lemma_first_such};
use crate::utils::text::{chars_of, split_on, stands_in, trim, trimmed};
use vstd::prelude::*;
use vstd::string::*;

verus! {

/// A field of a product that a listing shows: the name under which the
/// listing shows it, and the key under which the product holds it.
pub struct SelectedField {
    pub name: String,
    pub key: String,
}

/// What a `SelectedField` stands for.
pub ghost struct SelectedFieldView {
    pub name: Seq<char>,
    pub key: Seq<char>,
}

impl View for SelectedField {
    type V = SelectedFieldView;

    open spec fn view(&self) -> SelectedFieldView {
        SelectedFieldView { name: self.name@, key: self.key@ }
    }
}

/// The fields of a product that a listing shows.
pub enum FieldSelection {
    /// Every field.
    All,
    /// These fields, and the category of the product if `with_categoria`.
    Only { fields: Vec<SelectedField>, with_categoria: bool },
}

/// What a `FieldSelection` stands for.
pub ghost enum FieldSelectionView {
    All,
    Only { fields: Seq<SelectedFieldView>, with_categoria: bool },
}

impl View for FieldSelection {
    type V = FieldSelectionView;

    open spec fn view(&self) -> FieldSelectionView {
        match *self {
            FieldSelection::All => FieldSelectionView::All,
            FieldSelection::Only { fields, with_categoria } => FieldSelectionView::Only {
                fields: seq_view(fields@),
                with_categoria,
            },
        }
    }
}

/// The key under which a product holds the field that a listing calls
/// `name`: three fields have a second name, every other goes by its own.
pub open spec fn key_of(name: Seq<char>) -> Seq<char> {
    if name == "id_categoria"@ {
        "idCategoria"@
    } else if name == "created_at"@ {
        "createdAt"@
    } else if name == "updated_at"@ {
        "updatedAt"@
    } else {
        name
    }
}

/// Whether the field `name` is the category of a product.
pub open spec fn names_categoria(name: Seq<char>) -> bool {
    name == "id_categoria"@ || name == "idCategoria"@
}

/// The field that the piece `piece` of a list of fields asks for.
pub open spec fn field_of(piece: Seq<char>) -> SelectedFieldView {
    SelectedFieldView { name: trimmed(piece), key: key_of(trimmed(piece)) }
}

/// The fields that the pieces `pieces` ask for, in order.
pub open spec fn fields_of(pieces: Seq<Seq<char>>) -> Seq<SelectedFieldView> {
    Seq::new(pieces.len(), |i: int| field_of(pieces[i]))
}

/// Whether one of the pieces `pieces` asks for the category.
pub open spec fn asks_categoria(pieces: Seq<Seq<char>>) -> bool {
    exists|i: int| 0 <= i < pieces.len() && names_categoria(trimmed(#[trigger] pieces[i]))
}

/// The fields that the list `campos` asks for: every field where the list is
/// blank or the word `null`; otherwise the fields between its commas, each
/// without the white space around it.
pub open spec fn selection_of(campos: Seq<char>) -> FieldSelectionView {
    if trimmed(campos).len() == 0 || campos == "null"@ {
        FieldSelectionView::All
    } else {
        FieldSelectionView::Only {
            fields: fields_of(split_on(campos, ',')),
            with_categoria: asks_categoria(split_on(campos, ',')),
        }
    }
}

/// A text from `start` on splits at its first separator: where `sep` stands
/// at `i` and nowhere from `start` to `i`, the pieces from `start` on are the
/// text from `start` to `i`, then the pieces from `i + 1` on; where `sep`
/// stands nowhere from `start` on, the rest is one piece.
proof fn lemma_split_from(s: Seq<char>, sep: char, start: int, i: int)
    requires
        0 <= start <= i <= s.len(),
        forall|k: int| start <= k < i ==> s[k] != sep,
        i < s.len() ==> s[i] == sep,
    ensures
        split_on(s.skip(start), sep) == if i < s.len() {
            seq![s.subrange(start, i)] + split_on(s.skip(i + 1), sep)
        } else {
            seq![s.skip(start)]
        },
{
    let rest = s.skip(start);
    let p = stands_in(rest, sep);
    lemma_first_such(rest.len() as int, p);
    let first = first_such(rest.len() as int, p);
    if first < i - start {
        assert(p(first));
        assert(rest[first] == s[start + first]);
    }
    if i < s.len() {
        assert(rest[i - start] == s[i]);
        assert(p(i - start));
        assert(first == i - start);
        assert(rest.take(first) =~= s.subrange(start, i));
        assert(rest.skip(first + 1) =~= s.skip(i + 1));
    } else {
        assert(first == rest.len());
    }
}

/// The listings of products.
pub struct ProdutoDal;

impl ProdutoDal {
    /// Reads a list of fields.
    #[verifier::loop_isolation(false)]
    pub fn field_selection(campos: &str) -> (selection: FieldSelection)
        ensures
            selection@ == selection_of(campos@),
    {
        if trim(campos).as_str().is_empty() || String::from_str(campos) == String::from_str(
            "null",
        ) {
            return FieldSelection::All;
        }
        let chars = chars_of(campos);
        let n = chars.len();
        let ghost all = split_on(campos@, ',');
        let mut fields: Vec<SelectedField> = Vec::new();
        let mut with_categoria = false;
        let mut start: usize = 0;
        let mut i: usize = 0;
        let ghost mut done: Seq<Seq<char>> = Seq::empty();
        proof {
            assert(campos@.skip(0) =~= campos@);
            assert(done + split_on(campos@.skip(0), ',') =~= all);
        }
        loop
            invariant
                start <= i <= n,
                n == chars.len(),
                chars@ == campos@,
                all == split_on(campos@, ','),
                all == done + split_on(campos@.skip(start as int), ','),
                forall|k: int| start <= k < i ==> campos@[k] != ',',
                seq_view(fields@) == fields_of(done),
                with_categoria == asks_categoria(done),
            decreases n - i,
        {
            if i < n && chars[i] != ',' {
                i = i + 1;
            } else {
                let ghost piece = campos@.subrange(start as int, i as int);
                proof {
                    lemma_split_from(campos@, ',', start as int, i as int);
                    if i == n {
                        assert(campos@.skip(start as int) =~= piece);
                    }
                }
                let name = trim(campos.substring_char(start, i));
                let key = if name == String::from_str("id_categoria") {
                    String::from_str("idCategoria")
                } else if name == String::from_str("created_at") {
                    String::from_str("createdAt")
                } else if name == String::from_str("updated_at") {
                    String::from_str("updatedAt")
                } else {
                    name.clone()
                };
                let categoria = name == String::from_str("id_categoria") || name
                    == String::from_str("idCategoria");
                let ghost before = done;
                proof {
                    done = done.push(piece);
                    assert(fields_of(done) =~= fields_of(before).push(field_of(piece)));
                    assert(asks_categoria(done) == (asks_categoria(before) || names_categoria(
                        trimmed(piece),
                    ))) by {
                        if asks_categoria(before) {
                            let k = choose|k: int|
                                0 <= k < before.len() && names_categoria(
                                    trimmed(#[trigger] before[k]),
                                );
                            assert(done[k] == before[k]);
                        }
                        if names_categoria(trimmed(piece)) {
                            assert(done[before.len() as int] == piece);
                        }
                        if asks_categoria(done) {
                            let k = choose|k: int|
                                0 <= k < done.len() && names_categoria(trimmed(#[trigger] done[k]));
                            if k < before.len() {
                                assert(before[k] == done[k]);
                            }
                        }
                    }
                }
                let ghost shown = seq_view(fields@);
                fields.push(SelectedField { name, key });
                proof {
                    assert(seq_view(fields@) =~= shown.push(field_of(piece)));
                }
                with_categoria = with_categoria || categoria;
                if i == n {
                    proof {
                        assert(all =~= done);
                    }
                    return FieldSelection::Only { fields, with_categoria };
                }
                proof {
                    assert(before + (seq![piece] + split_on(campos@.skip(i + 1), ','))
                        =~= done + split_on(campos@.skip(i + 1), ','));
                }
                i = i + 1;
                start = i;
            }
        }
    }
}

} // verus!
