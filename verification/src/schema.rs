use vstd::prelude::*;
use crate::error::CompileError;

verus! {

/// One token from a registration invocation's argument list, reduced to what
/// extraction reads: a bare identifier keeps its text, everything else
/// (punctuation, literals, groups) is dropped later.
pub enum SchemaToken {
    Ident(String),
    Other,
}

/// Spec-level image of a `SchemaToken`.
pub enum TokenModel {
    Ident(Seq<char>),
    Other,
}

impl View for SchemaToken {
    type V = TokenModel;

    open spec fn view(&self) -> TokenModel {
        match self {
            SchemaToken::Ident(name) => TokenModel::Ident(name@),
            SchemaToken::Other => TokenModel::Other,
        }
    }
}

/// One top-level item of the schema module, reduced to what extraction reads:
/// a macro-invocation item keeps its path segments and argument tokens, every
/// other kind of item is opaque.
pub enum SchemaItem {
    MacroCall { path: Vec<String>, tokens: Vec<SchemaToken> },
    Other,
}

/// Spec-level image of a `SchemaItem`.
pub enum ItemModel {
    MacroCall { path: Seq<Seq<char>>, tokens: Seq<TokenModel> },
    Other,
}

/// The views of a sequence of strings.
pub open spec fn strings_view(v: Seq<String>) -> Seq<Seq<char>> {
    v.map_values(|s: String| s@)
}

/// The views of a sequence of tokens.
pub open spec fn tokens_view(v: Seq<SchemaToken>) -> Seq<TokenModel> {
    v.map_values(|t: SchemaToken| t@)
}

/// The views of a sequence of items.
pub open spec fn items_view(v: Seq<SchemaItem>) -> Seq<ItemModel> {
    v.map_values(|i: SchemaItem| i@)
}

impl View for SchemaItem {
    type V = ItemModel;

    open spec fn view(&self) -> ItemModel {
        match self {
            SchemaItem::MacroCall { path, tokens } => ItemModel::MacroCall {
                path: strings_view(path@),
                tokens: tokens_view(tokens@),
            },
            SchemaItem::Other => ItemModel::Other,
        }
    }
}

/// The top-level items that the host parser recognizes in a schema source,
/// reduced to the extractor's model; `None` when the source is not a
/// well-formed module.
pub uninterp spec fn parsed_items(source: Seq<char>) -> Option<Seq<ItemModel>>;

/// Relies on syn::parse_file to recognize the schema module's top-level items:
/// a macro-invocation item keeps its path segments and, through proc-macro2,
/// its argument tokens, of which the bare identifiers keep their text.
#[verifier::external_body]
fn parse_schema_items(source: &str) -> (r: Result<Vec<SchemaItem>, String>)
    ensures
        r is Ok <==> parsed_items(source@) is Some,
        r matches Ok(items) ==> parsed_items(source@) == Some(items_view(items@)),
{
    match syn::parse_file(source) {
        Ok(file) => Ok(file.items.into_iter().map(|item| match item {
            syn::Item::Macro(m) => SchemaItem::MacroCall {
                path: m.mac.path.segments.iter().map(|s| s.ident.to_string()).collect(),
                tokens: m.mac.tokens.into_iter().map(|t| match t {
                    proc_macro2::TokenTree::Ident(id) => SchemaToken::Ident(id.to_string()),
                    _ => SchemaToken::Other,
                }).collect(),
            },
            _ => SchemaItem::Other,
        }).collect()),
        Err(diag) => Err(diag.to_string()),
    }
}

/// The registration marker is recognized under its qualified spelling and its
/// bare, locally imported one.
pub open spec fn is_marker_path(path: Seq<Seq<char>>) -> bool {
    ||| path == seq!["register_schemas"@]
    ||| path == seq!["awto"@, "register_schemas"@]
}

/// Is this item a registration invocation?
pub open spec fn is_marker_item(item: ItemModel) -> bool {
    match item {
        ItemModel::MacroCall { path, .. } => is_marker_path(path),
        ItemModel::Other => false,
    }
}

/// The identifiers among a macro invocation's argument tokens, in left-to-right
/// order; non-identifier tokens are silently dropped.
pub open spec fn idents_of(tokens: Seq<TokenModel>) -> Seq<Seq<char>>
    decreases tokens.len(),
{
    if tokens.len() == 0 {
        Seq::<Seq<char>>::empty()
    } else {
        match tokens[0] {
            TokenModel::Ident(name) => seq![name] + idents_of(tokens.drop_first()),
            TokenModel::Other => idents_of(tokens.drop_first()),
        }
    }
}

/// The model list of the first registration invocation, scanning top-level
/// items in source order; `None` when no item is a registration invocation.
pub open spec fn extract_spec(items: Seq<ItemModel>) -> Option<Seq<Seq<char>>>
    decreases items.len(),
{
    if items.len() == 0 {
        None
    } else if is_marker_item(items[0]) {
        match items[0] {
            ItemModel::MacroCall { path, tokens } => Some(idents_of(tokens)),
            ItemModel::Other => None,
        }
    } else {
        extract_spec(items.drop_first())
    }
}

/// The identifiers of a prefix one token longer take in the next identifier,
/// and nothing else.
proof fn lemma_idents_of_take_step(tokens: Seq<TokenModel>, j: int)
    requires
        0 <= j < tokens.len(),
    ensures
        idents_of(tokens.take(j + 1)) == idents_of(tokens.take(j)) + (match tokens[j] {
            TokenModel::Ident(name) => seq![name],
            TokenModel::Other => Seq::<Seq<char>>::empty(),
        }),
    decreases j,
{
    if j == 0 {
        assert(tokens.take(0) =~= Seq::<TokenModel>::empty());
        assert(tokens.take(1) =~= seq![tokens[0]]);
        assert(seq![tokens[0]].drop_first() =~= Seq::<TokenModel>::empty());
        assert(idents_of(Seq::<TokenModel>::empty()) == Seq::<Seq<char>>::empty());
        assert(seq![tokens[0]][0] == tokens[0]);
        match tokens[0] {
            TokenModel::Ident(name) => {
                assert(idents_of(seq![tokens[0]]) == seq![name] + idents_of(
                    seq![tokens[0]].drop_first(),
                ));
                assert(idents_of(tokens.take(1)) =~= seq![name]);
                assert(idents_of(tokens.take(0)) + seq![name] =~= seq![name]);
            },
            TokenModel::Other => {
                assert(idents_of(seq![tokens[0]]) == idents_of(seq![tokens[0]].drop_first()));
                assert(idents_of(tokens.take(1)) =~= Seq::<Seq<char>>::empty());
                assert(idents_of(tokens.take(0)) + Seq::<Seq<char>>::empty()
                    =~= Seq::<Seq<char>>::empty());
            },
        }
    } else {
        let rest = tokens.drop_first();
        lemma_idents_of_take_step(rest, j - 1);
        assert(tokens.take(j + 1).drop_first() =~= rest.take(j));
        assert(tokens.take(j).drop_first() =~= rest.take(j - 1));
        assert(tokens.take(j + 1)[0] == tokens[0]);
        assert(tokens.take(j)[0] == tokens[0]);
        assert(rest[j - 1] == tokens[j]);
        match tokens[0] {
            TokenModel::Ident(name) => {
                assert(idents_of(tokens.take(j + 1)) == seq![name] + idents_of(rest.take(j)));
                assert(idents_of(tokens.take(j)) == seq![name] + idents_of(rest.take(j - 1)));
                assert(seq![name] + (idents_of(rest.take(j - 1)) + (match tokens[j] {
                    TokenModel::Ident(n2) => seq![n2],
                    TokenModel::Other => Seq::<Seq<char>>::empty(),
                })) =~= (seq![name] + idents_of(rest.take(j - 1))) + (match tokens[j] {
                    TokenModel::Ident(n2) => seq![n2],
                    TokenModel::Other => Seq::<Seq<char>>::empty(),
                }));
            },
            TokenModel::Other => {
                assert(idents_of(tokens.take(j + 1)) == idents_of(rest.take(j)));
                assert(idents_of(tokens.take(j)) == idents_of(rest.take(j - 1)));
            },
        }
    }
}

/// Collects the identifier tokens of one invocation's argument list, in order.
fn collect_idents(tokens: &Vec<SchemaToken>) -> (r: Vec<String>)
    ensures
        strings_view(r@) == idents_of(tokens_view(tokens@)),
{
    let ghost whole = tokens_view(tokens@);
    let mut out: Vec<String> = Vec::new();
    assert(strings_view(out@) =~= idents_of(whole.take(0)));
    for j in 0..tokens.len()
        invariant
            whole == tokens_view(tokens@),
            whole.len() == tokens@.len(),
            strings_view(out@) == idents_of(whole.take(j as int)),
    {
        proof {
            lemma_idents_of_take_step(whole, j as int);
            assert(whole[j as int] == tokens@[j as int]@);
        }
        match &tokens[j] {
            SchemaToken::Ident(name) => {
                let owned: String = name.as_str().to_owned();
                out.push(owned);
                proof {
                    assert(strings_view(out@) =~= idents_of(whole.take(j as int))
                        + seq![tokens@[j as int]@->Ident_0]);
                }
            },
            SchemaToken::Other => {
                proof {
                    assert(idents_of(whole.take(j + 1 as int)) =~= idents_of(
                        whole.take(j as int),
                    ));
                }
            },
        }
        assert(strings_view(out@) == idents_of(whole.take(j + 1 as int)));
    }
    proof {
        assert(whole.take(tokens@.len() as int) =~= whole);
    }
    out
}

/// Does this path spell the registration marker, qualified or bare?
fn is_marker_path_exec(path: &Vec<String>) -> (r: bool)
    ensures
        r == is_marker_path(strings_view(path@)),
{
    let marker: String = "register_schemas".to_owned();
    let qualifier: String = "awto".to_owned();
    if path.len() == 1 {
        let hit = path[0] == marker;
        proof {
            if hit {
                assert(strings_view(path@) =~= seq!["register_schemas"@]);
            } else {
                assert(strings_view(path@)[0] == path@[0]@);
                assert(strings_view(path@) != seq!["register_schemas"@]);
                assert(strings_view(path@).len() == 1);
            }
        }
        hit
    } else if path.len() == 2 {
        let hit = path[0] == qualifier && path[1] == marker;
        proof {
            if hit {
                assert(strings_view(path@) =~= seq!["awto"@, "register_schemas"@]);
            } else {
                assert(strings_view(path@)[0] == path@[0]@);
                assert(strings_view(path@)[1] == path@[1]@);
                assert(strings_view(path@).len() == 2);
            }
        }
        hit
    } else {
        proof {
            assert(strings_view(path@).len() == path@.len());
        }
        false
    }
}

/// Scans top-level items in source order and returns the model list of the
/// first registration invocation; every item before it is not one, and when
/// the result is `NoRegistrationFound` no item is one.
pub fn extract_from_items(items: &Vec<SchemaItem>) -> (r: Result<Vec<String>, CompileError>)
    ensures
        match extract_spec(items_view(items@)) {
            Some(names) => r matches Ok(models) && strings_view(models@) == names,
            None => r matches Err(e) && e@ == crate::error::ErrorModel::NoRegistrationFound,
        },
{
    let ghost whole = items_view(items@);
    proof {
        assert(whole.skip(0) =~= whole);
    }
    for i in 0..items.len()
        invariant
            whole == items_view(items@),
            whole.len() == items@.len(),
            extract_spec(whole) == extract_spec(whole.skip(i as int)),
    {
        proof {
            assert(whole.skip(i as int)[0] == whole[i as int]);
            assert(whole[i as int] == items@[i as int]@);
        }
        match &items[i] {
            SchemaItem::MacroCall { path, tokens } => {
                if is_marker_path_exec(path) {
                    let models = collect_idents(tokens);
                    proof {
                        assert(is_marker_item(whole.skip(i as int)[0]));
                        assert(extract_spec(whole.skip(i as int)) == Some(
                            idents_of(tokens_view(tokens@)),
                        ));
                    }
                    return Ok(models);
                }
            },
            SchemaItem::Other => {},
        }
        proof {
            assert(!is_marker_item(whole.skip(i as int)[0]));
            assert(whole.skip(i as int).drop_first() =~= whole.skip(i + 1 as int));
            assert(extract_spec(whole.skip(i as int)) == extract_spec(whole.skip(i + 1 as int)));
        }
    }
    proof {
        assert(whole.skip(items@.len() as int) =~= Seq::<ItemModel>::empty());
    }
    Err(CompileError::NoRegistrationFound)
}

/// Parses a schema source and returns its registered model list: the
/// identifiers of the first registration invocation, in order. Fails with
/// `ParseError` on a malformed module and with `NoRegistrationFound` when no
/// top-level item is a registration invocation.
pub fn extract(source: &str) -> (r: Result<Vec<String>, CompileError>)
    ensures
        match parsed_items(source@) {
            Some(found) => match extract_spec(found) {
                Some(names) => r matches Ok(models) && strings_view(models@) == names,
                None => r matches Err(e) && e@ == crate::error::ErrorModel::NoRegistrationFound,
            },
            None => r matches Err(e) && e@ matches crate::error::ErrorModel::ParseError(_),
        },
{
    match parse_schema_items(source) {
        Ok(items) => extract_from_items(&items),
        Err(diag) => Err(CompileError::ParseError(diag)),
    }
}

} // verus!
