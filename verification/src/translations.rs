//! The Kotlin interface to the translations: one method for each
//! translation, which looks the text up by the index of its module and its
//! own index and hands the variables over by name.

use vstd::prelude::*;
use vstd::string::StringExecFns;
use crate::text::{
    camel_case, decimal, join, joined, replace_char, replaced, str_eq, string_views, to_camel_case,
    usize_to_string,
};

verus! {

/// A variable of a translation.
pub struct Variable {
    pub name: String,
    pub kind: String,
}

/// One translated text with the variables that it takes.
pub struct Translation {
    pub key: String,
    pub index: usize,
    pub variables: Vec<Variable>,
    pub text: String,
}

/// The translations of one module.
pub struct Module {
    pub index: usize,
    pub translations: Vec<Translation>,
}

/// A `Variable` as mathematical values.
pub struct VariableView {
    pub name: Seq<char>,
    pub kind: Seq<char>,
}

/// A `Translation` as mathematical values.
pub struct TranslationView {
    pub key: Seq<char>,
    pub index: usize,
    pub variables: Seq<VariableView>,
    pub text: Seq<char>,
}

/// A `Module` as mathematical values.
pub struct ModuleView {
    pub index: usize,
    pub translations: Seq<TranslationView>,
}

impl View for Variable {
    type V = VariableView;

    open spec fn view(&self) -> VariableView {
        VariableView { name: self.name@, kind: self.kind@ }
    }
}

/// The views of a sequence of variables, in the same order.
pub open spec fn variable_views(variables: Seq<Variable>) -> Seq<VariableView> {
    variables.map_values(|v: Variable| v@)
}

impl View for Translation {
    type V = TranslationView;

    open spec fn view(&self) -> TranslationView {
        TranslationView {
            key: self.key@,
            index: self.index,
            variables: variable_views(self.variables@),
            text: self.text@,
        }
    }
}

/// The views of a sequence of translations, in the same order.
pub open spec fn translation_views(translations: Seq<Translation>) -> Seq<TranslationView> {
    translations.map_values(|t: Translation| t@)
}

impl View for Module {
    type V = ModuleView;

    open spec fn view(&self) -> ModuleView {
        ModuleView { index: self.index, translations: translation_views(self.translations@) }
    }
}

/// The views of a sequence of modules, in the same order.
pub open spec fn module_views(modules: Seq<Module>) -> Seq<ModuleView> {
    modules.map_values(|m: Module| m@)
}

/// The Kotlin type of a variable of the given kind: `Int` for `Int`,
/// `TranslateArg` for `Any`, `Double` for `Float`, and `String` for any
/// other.
pub open spec fn arg_kind_text(kind: Seq<char>) -> Seq<char> {
    if kind == "Int"@ {
        "Int"@
    } else if kind == "Any"@ {
        "TranslateArg"@
    } else if kind == "Float"@ {
        "Double"@
    } else {
        "String"@
    }
}

/// A parameter of a method: the name in camel case between backticks, a
/// colon, and the Kotlin type of the kind.
pub open spec fn arg_type_text(camel_name: Seq<char>, kind: Seq<char>) -> Seq<char> {
    "`"@ + camel_name + "`: "@ + arg_kind_text(kind)
}

/// The parameters of a method, one for each variable, with a comma and a
/// space between them.
pub open spec fn arg_types_text(variables: Seq<VariableView>) -> Seq<char> {
    joined(
        variables.map_values(|v: VariableView| arg_type_text(camel_case(v.name), v.kind)),
        ", "@,
    )
}

/// An entry of the map of arguments: the name of the variable as a string,
/// mapped to the parameter as an argument of the translation.
pub open spec fn arg_text(name: Seq<char>, camel_name: Seq<char>) -> Seq<char> {
    "\""@ + name + "\" to asTranslateArg(`"@ + camel_name + "`)"@
}

/// The entries of the map of arguments, one for each variable, with a comma
/// and a space between them.
pub open spec fn args_text(variables: Seq<VariableView>) -> Seq<char> {
    joined(variables.map_values(|v: VariableView| arg_text(v.name, camel_case(v.name))), ", "@)
}

/// The source of one method, made of its parts.
pub open spec fn method_text(
    text: Seq<char>,
    key: Seq<char>,
    arg_types: Seq<char>,
    module_index: usize,
    translation_index: usize,
    args: Seq<char>,
) -> Seq<char> {
    "\n    /** "@ + text + " */\n    fun "@ + key + "("@ + arg_types
        + "): String {\n        return translate("@ + decimal(module_index as nat) + ", "@
        + decimal(translation_index as nat) + ", mapOf("@ + args + "))\n    }\n"@
}

/// The name of the method of a translation: its key, with an underscore for
/// each hyphen, in camel case.
pub open spec fn method_name(key: Seq<char>) -> Seq<char> {
    camel_case(replaced(key, '-', "_"@))
}

/// The source of the method of a translation of the module with index
/// `module_index`.
pub open spec fn translation_method(module_index: usize, t: TranslationView) -> Seq<char> {
    method_text(
        t.text,
        method_name(t.key),
        arg_types_text(t.variables),
        module_index,
        t.index,
        args_text(t.variables),
    )
}

/// The sources of the methods of the translations of a module, in order.
pub open spec fn module_methods(m: ModuleView) -> Seq<Seq<char>> {
    m.translations.map_values(|t: TranslationView| translation_method(m.index, t))
}

/// The sources of the methods of the translations of all modules, in order.
pub open spec fn all_methods(modules: Seq<ModuleView>) -> Seq<Seq<char>>
    decreases modules.len(),
{
    if modules.len() == 0 {
        Seq::empty()
    } else {
        all_methods(modules.drop_last()) + module_methods(modules.last())
    }
}

/// The methods of all translations: their sources with a line feed between
/// each two, and a line feed at the end.
pub open spec fn methods_text(modules: Seq<ModuleView>) -> Seq<char> {
    joined(all_methods(modules), "\n"@) + "\n"@
}

/// The start of the generated file, up to the first method.
pub const SOURCE_HEADER: &'static str = "// Copyright: Ankitects Pty Ltd and contributors
// License: GNU AGPL, version 3 or later; http://www.gnu.org/licenses/agpl.html

package anki.i18n;

import anki.i18n.TranslateArgValue

fun asTranslateArg(arg: Any): TranslateArgValue {
    val builder = TranslateArgValue.newBuilder()
    when (arg) {
        is String -> builder.setStr(arg)
        is Int -> builder.setNumber(arg.toDouble())
        is Double -> builder.setNumber(arg)
        else -> throw Exception(\"invalid arg provided to translation\")
    }
    return builder.build()
}

// This should be either String, Double or Int
typealias TranslateArg = Any

typealias TranslateArgMap = Map<String, TranslateArgValue>

interface GeneratedTranslations {
    fun translate(module: Int, translation: Int, args: TranslateArgMap): String;


";

/// The start of the generated file, as characters.
pub open spec fn source_header() -> Seq<char> {
    SOURCE_HEADER@
}

/// The generated file: the header, the methods, and the brace that closes
/// the interface.
pub open spec fn source_text(modules: Seq<ModuleView>) -> Seq<char> {
    source_header() + methods_text(modules) + "}"@
}

/// The Kotlin type of a variable of the given kind.
pub fn arg_kind(kind: &str) -> (out: &'static str)
    ensures
        out@ == arg_kind_text(kind@),
{
    if str_eq(kind, "Int") {
        "Int"
    } else if str_eq(kind, "Any") {
        "TranslateArg"
    } else if str_eq(kind, "Float") {
        "Double"
    } else {
        "String"
    }
}

/// A parameter of a method, of the name in camel case and the kind.
pub fn arg_type(camel_name: &str, kind: &str) -> (out: String)
    ensures
        out@ == arg_type_text(camel_name@, kind@),
{
    let mut out = String::from_str("`");
    out.append(camel_name);
    out.append("`: ");
    out.append(arg_kind(kind));
    out
}

/// The parameters of a method that takes `args`.
pub fn get_arg_types(args: &[Variable]) -> (out: String)
    ensures
        out@ == arg_types_text(variable_views(args@)),
{
    let ghost wanted = variable_views(args@).map_values(
        |v: VariableView| arg_type_text(camel_case(v.name), v.kind),
    );
    let mut parts: Vec<String> = Vec::new();
    let mut i: usize = 0;
    while i < args.len()
        invariant
            i <= args.len(),
            wanted == variable_views(args@).map_values(
                |v: VariableView| arg_type_text(camel_case(v.name), v.kind),
            ),
            string_views(parts@) == wanted.take(i as int),
        decreases args.len() - i,
    {
        let ghost before = string_views(parts@);
        let camel_name = to_camel_case(args[i].name.as_str());
        parts.push(arg_type(camel_name.as_str(), args[i].kind.as_str()));
        assert(string_views(parts@) =~= before.push(wanted[i as int]));
        i = i + 1;
        assert(before.push(wanted[i - 1]) =~= wanted.take(i as int));
    }
    assert(wanted.take(i as int) =~= wanted);
    join(&parts, ", ")
}

/// An entry of the map of arguments, of the name of a variable and the name
/// in camel case.
pub fn arg(name: &str, camel_name: &str) -> (out: String)
    ensures
        out@ == arg_text(name@, camel_name@),
{
    let mut out = String::from_str("\"");
    out.append(name);
    out.append("\" to asTranslateArg(`");
    out.append(camel_name);
    out.append("`)");
    out
}

/// The entries of the map of arguments of a method that takes `args`.
pub fn get_args(args: &[Variable]) -> (out: String)
    ensures
        out@ == args_text(variable_views(args@)),
{
    let ghost wanted = variable_views(args@).map_values(
        |v: VariableView| arg_text(v.name, camel_case(v.name)),
    );
    let mut parts: Vec<String> = Vec::new();
    let mut i: usize = 0;
    while i < args.len()
        invariant
            i <= args.len(),
            wanted == variable_views(args@).map_values(
                |v: VariableView| arg_text(v.name, camel_case(v.name)),
            ),
            string_views(parts@) == wanted.take(i as int),
        decreases args.len() - i,
    {
        let ghost before = string_views(parts@);
        let camel_name = to_camel_case(args[i].name.as_str());
        parts.push(arg(args[i].name.as_str(), camel_name.as_str()));
        assert(string_views(parts@) =~= before.push(wanted[i as int]));
        i = i + 1;
        assert(before.push(wanted[i - 1]) =~= wanted.take(i as int));
    }
    assert(wanted.take(i as int) =~= wanted);
    join(&parts, ", ")
}

/// A key with an underscore in place of each hyphen.
pub fn underscored(key: &str) -> (out: String)
    ensures
        out@ == replaced(key@, '-', "_"@),
{
    replace_char(key, '-', "_")
}

/// The source of one method, of its parts: the text of the translation, the
/// name of the method, its parameters, the indices of the module and of the
/// translation, and the entries of the map of arguments.
pub fn method(
    text: &str,
    key: &str,
    arg_types: &str,
    module_index: usize,
    translation_index: usize,
    args: &str,
) -> (out: String)
    ensures
        out@ == method_text(text@, key@, arg_types@, module_index, translation_index, args@),
{
    let mut out = String::from_str("\n    /** ");
    out.append(text);
    out.append(" */\n    fun ");
    out.append(key);
    out.append("(");
    out.append(arg_types);
    out.append("): String {\n        return translate(");
    out.append(usize_to_string(module_index).as_str());
    out.append(", ");
    out.append(usize_to_string(translation_index).as_str());
    out.append(", mapOf(");
    out.append(args);
    out.append("))\n    }\n");
    out
}

/// The methods of the translations of `modules`.
pub fn methods(modules: &[Module]) -> (out: String)
    ensures
        out@ == methods_text(module_views(modules@)),
{
    let ghost views = module_views(modules@);
    let mut parts: Vec<String> = Vec::new();
    let mut m: usize = 0;
    while m < modules.len()
        invariant
            m <= modules.len(),
            views == module_views(modules@),
            string_views(parts@) == all_methods(views.take(m as int)),
        decreases modules.len() - m,
    {
        let module = &modules[m];
        let ghost done = string_views(parts@);
        let ghost wanted = module_methods(module@);
        let mut t: usize = 0;
        while t < module.translations.len()
            invariant
                t <= module.translations.len(),
                wanted == module_methods(module@),
                string_views(parts@) == done + wanted.take(t as int),
            decreases module.translations.len() - t,
        {
            let translation = &module.translations[t];
            let ghost before = string_views(parts@);
            let key = to_camel_case(underscored(translation.key.as_str()).as_str());
            let arg_types = get_arg_types(translation.variables.as_slice());
            let args = get_args(translation.variables.as_slice());
            parts.push(
                method(
                    translation.text.as_str(),
                    key.as_str(),
                    arg_types.as_str(),
                    module.index,
                    translation.index,
                    args.as_str(),
                ),
            );
            assert(string_views(parts@) =~= before.push(wanted[t as int]));
            t = t + 1;
            assert(before.push(wanted[t - 1]) =~= done + wanted.take(t as int));
        }
        assert(wanted.take(t as int) =~= wanted);
        assert(views.take(m + 1).drop_last() =~= views.take(m as int));
        assert(views.take(m + 1).last() == module@);
        m = m + 1;
    }
    assert(views.take(m as int) =~= views);
    let mut out = join(&parts, "\n");
    out.append("\n");
    out
}

/// The source of the generated file for `modules`.
pub fn build_source(modules: &[Module]) -> (out: String)
    ensures
        out@ == source_text(module_views(modules@)),
{
    let mut out = String::from_str(SOURCE_HEADER);
    out.append(methods(modules).as_str());
    out.append("}");
    out
}

} // verus!
