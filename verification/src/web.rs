//! The list of the backend functions that the web components import.

use vstd::prelude::*;
use crate::text::{join, joined, str_eq, string_views};

verus! {

/// The module that the functions of the backend are imported from, as it
/// stands in an import statement, with its quotes.
pub open spec fn backend_module() -> Seq<char> {
    "\"@generated/backend\""@
}

/// The views of a sequence of imports, each a name and the module that it
/// is imported from.
pub open spec fn import_views(imports: Seq<(String, String)>) -> Seq<(Seq<char>, Seq<char>)> {
    imports.map_values(|i: (String, String)| (i.0@, i.1@))
}

/// The names that are imported from the module of the backend, in order.
pub open spec fn backend_imports(imports: Seq<(Seq<char>, Seq<char>)>) -> Seq<Seq<char>>
    decreases imports.len(),
{
    if imports.len() == 0 {
        Seq::empty()
    } else if imports.last().1 == backend_module() {
        backend_imports(imports.drop_last()).push(imports.last().0)
    } else {
        backend_imports(imports.drop_last())
    }
}

/// `parts` without the elements that repeat the element before them.
pub open spec fn deduped(parts: Seq<Seq<char>>) -> Seq<Seq<char>>
    decreases parts.len(),
{
    if parts.len() <= 1 {
        parts
    } else if parts[parts.len() - 2] == parts.last() {
        deduped(parts.drop_last())
    } else {
        deduped(parts.drop_last()).push(parts.last())
    }
}

/// The file that lists the imported functions: one name a line, and a line
/// feed after the last name that is not empty.
pub open spec fn funcs_file_text(names: Seq<Seq<char>>) -> Seq<char> {
    joined(deduped(names.push(""@)), "\n"@)
}

/// Of the imports that were found in a script, each a name and the module
/// that it is imported from, the names that are imported from the module of
/// the backend.
pub fn ts_imported_funcs(imports: &[(String, String)]) -> (names: Vec<String>)
    ensures
        string_views(names@) == backend_imports(import_views(imports@)),
{
    let ghost all = import_views(imports@);
    let mut names: Vec<String> = Vec::new();
    let mut i: usize = 0;
    while i < imports.len()
        invariant
            i <= imports.len(),
            all == import_views(imports@),
            string_views(names@) == backend_imports(all.take(i as int)),
        decreases imports.len() - i,
    {
        assert(all.take(i + 1).drop_last() =~= all.take(i as int));
        assert(all.take(i + 1).last() == all[i as int]);
        if str_eq(imports[i].1.as_str(), "\"@generated/backend\"") {
            let ghost before = string_views(names@);
            names.push(imports[i].0.clone());
            assert(string_views(names@) =~= before.push(all[i as int].0));
        }
        i = i + 1;
    }
    assert(all.take(i as int) =~= all);
    names
}

/// The text of the file that lists `names`: the names with a line feed
/// after each, a name that repeats the one before it left out.
pub fn funcs_file(names: &[String]) -> (text: String)
    ensures
        text@ == funcs_file_text(string_views(names@)),
{
    let ghost all = string_views(names@).push(""@);
    let mut content: Vec<String> = Vec::new();
    let mut i: usize = 0;
    while i < names.len()
        invariant
            i <= names.len(),
            all == string_views(names@).push(""@),
            string_views(content@) == deduped(all.take(i as int)),
            i > 0 ==> content@.len() > 0 && content@.last()@ == all[i - 1],
        decreases names.len() - i,
    {
        assert(all.take(i + 1).drop_last() =~= all.take(i as int));
        assert(all.take(i + 1).last() == all[i as int]);
        if i == 0 || !str_eq(content[content.len() - 1].as_str(), names[i].as_str()) {
            let ghost before = string_views(content@);
            content.push(names[i].clone());
            assert(string_views(content@) =~= before.push(all[i as int]));
        }
        i = i + 1;
    }
    assert(all.take(i + 1).drop_last() =~= all.take(i as int));
    assert(all.take(i + 1) =~= all);
    // Make sure the file ends with a newline.
    if i == 0 || !str_eq(content[content.len() - 1].as_str(), "") {
        let ghost before = string_views(content@);
        let last = String::new();
        proof {
            reveal_strlit("");
            assert(last@ =~= ""@);
        }
        content.push(last);
        assert(string_views(content@) =~= before.push(all[i as int]));
    }
    join(&content, "\n")
}

} // verus!
