use vstd::prelude::*;
use vstd::string::StringExecFns;
use crate::schema::strings_view;

verus! {

/// The lower-case/underscore form of an identifier: a function of its
/// characters alone, deterministic across runs and machines.
pub uninterp spec fn snake_of(s: Seq<char>) -> Seq<char>;

/// Relies on heck's to_snake_case: the lower-case/underscore form of an
/// identifier, computed from the characters alone.
#[verifier::external_body]
pub(crate) fn to_snake(s: &String) -> (r: String)
    ensures
        r@ == snake_of(s@),
{
    heck::ToSnakeCase::to_snake_case(s.as_str())
}

/// The fixed head of every generated library entry file: a comment naming the
/// generator and its version, the re-export of the ORM runtime namespace, and
/// the inclusion directive for the build step's top-level bindings.
pub open spec fn header_text() -> Seq<char> {
    "// This file is automatically @generated by awto_compile v0.1.0\n\npub use sea_orm;\n\ninclude!(concat!(env!(\"OUT_DIR\"), \"/app.rs\"));\n"@
}

/// One generated module block: a doc comment naming the model, then a module
/// named by the model's lower-case/underscore form whose body invokes the
/// downstream include-model directive with that same form.
pub open spec fn module_text(model: Seq<char>) -> Seq<char> {
    "\n/// "@ + model + " database model\n"@ + "pub mod "@ + snake_of(model) + " {\n"@
        + "    sea_orm::include_model!(\""@ + snake_of(model) + "\");\n"@ + "}\n"@
}

/// The module blocks of a model list, in list order.
pub open spec fn modules_text(models: Seq<Seq<char>>) -> Seq<char>
    decreases models.len(),
{
    if models.len() == 0 {
        Seq::<char>::empty()
    } else {
        module_text(models[0]) + modules_text(models.drop_first())
    }
}

/// The whole generated library entry file for a model list.
pub open spec fn lib_text(models: Seq<Seq<char>>) -> Seq<char> {
    header_text() + modules_text(models)
}

/// The text of a prefix one model longer ends in that model's block.
proof fn lemma_modules_text_take_step(models: Seq<Seq<char>>, j: int)
    requires
        0 <= j < models.len(),
    ensures
        modules_text(models.take(j + 1)) == modules_text(models.take(j)) + module_text(models[j]),
    decreases j,
{
    if j == 0 {
        assert(models.take(0) =~= Seq::<Seq<char>>::empty());
        assert(models.take(1) =~= seq![models[0]]);
        assert(seq![models[0]].drop_first() =~= Seq::<Seq<char>>::empty());
        assert(modules_text(Seq::<Seq<char>>::empty()) == Seq::<char>::empty());
        assert(seq![models[0]][0] == models[0]);
        assert(modules_text(seq![models[0]]) == module_text(models[0]) + modules_text(
            seq![models[0]].drop_first(),
        ));
        assert(modules_text(models.take(1)) =~= module_text(models[0]));
        assert(modules_text(models.take(0)) + module_text(models[0]) =~= module_text(models[0]));
    } else {
        let rest = models.drop_first();
        lemma_modules_text_take_step(rest, j - 1);
        assert(models.take(j + 1).drop_first() =~= rest.take(j));
        assert(models.take(j).drop_first() =~= rest.take(j - 1));
        assert(models.take(j + 1)[0] == models[0]);
        assert(models.take(j)[0] == models[0]);
        assert(rest[j - 1] == models[j]);
        assert(modules_text(models.take(j + 1)) == module_text(models[0]) + modules_text(
            rest.take(j),
        ));
        assert(modules_text(models.take(j)) == module_text(models[0]) + modules_text(
            rest.take(j - 1),
        ));
        assert(module_text(models[0]) + (modules_text(rest.take(j - 1)) + module_text(models[j]))
            =~= (module_text(models[0]) + modules_text(rest.take(j - 1))) + module_text(
            models[j],
        ));
    }
}

/// Synthesizes the library entry file for a model list: the fixed header, then
/// one module block per model, in list order. Two distinct names that convert
/// to the same lower-case/underscore form yield two modules of the same name:
/// the list is rendered as given, with no collision detection.
pub fn render_lib_content(models: &Vec<String>) -> (r: String)
    ensures
        r@ == lib_text(strings_view(models@)),
{
    let ghost names = strings_view(models@);
    let mut out: String =
        "// This file is automatically @generated by awto_compile v0.1.0\n\npub use sea_orm;\n\ninclude!(concat!(env!(\"OUT_DIR\"), \"/app.rs\"));\n".to_owned();
    proof {
        assert(out@ =~= header_text() + modules_text(names.take(0)));
    }
    for i in 0..models.len()
        invariant
            names == strings_view(models@),
            names.len() == models@.len(),
            out@ == header_text() + modules_text(names.take(i as int)),
    {
        proof {
            lemma_modules_text_take_step(names, i as int);
            assert(names[i as int] == models@[i as int]@);
        }
        let snake = to_snake(&models[i]);
        out.append("\n/// ");
        out.append(models[i].as_str());
        out.append(" database model\n");
        out.append("pub mod ");
        out.append(snake.as_str());
        out.append(" {\n");
        out.append("    sea_orm::include_model!(\"");
        out.append(snake.as_str());
        out.append("\");\n");
        out.append("}\n");
        proof {
            assert(out@ =~= header_text() + (modules_text(names.take(i as int)) + module_text(
                names[i as int],
            )));
        }
    }
    proof {
        assert(names.take(models@.len() as int) =~= names);
    }
    out
}

} // verus!
