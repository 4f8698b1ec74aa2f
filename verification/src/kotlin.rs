//! The Kotlin interface to the backend: for each method of each service a
//! method that takes and returns bytes, and one that takes the fields of the
//! input message and returns the output message or its only field.

use vstd::prelude::*;
use vstd::string::StringExecFns;
use crate::text::{
    camel_case, decimal, ends_with, join, joined, lemma_joined_plain_next, pascal_case,
    replace_all, replaced_all, str_eq, string_views, to_camel_case, to_pascal_case,
    usize_to_string,
};

verus! {

/// The type of a field of a message.
pub enum Kind {
    Int32,
    Fixed32,
    Sfixed32,
    Sint32,
    Uint32,
    Int64,
    Sint64,
    Sfixed64,
    Uint64,
    Fixed64,
    Float,
    Double,
    Bool,
    String,
    Bytes,
    /// A message, with its full name.
    Message(String),
    /// An enum, with its full name.
    Enum(String),
}

/// Whether a field holds one value, a list of values, or a map.
pub enum Label {
    Single,
    List,
    /// A map, with the types of its keys and of its values.
    Mapping(Kind, Kind),
}

/// A field of a message.
pub struct Field {
    pub name: String,
    pub kind: Kind,
    pub label: Label,
    /// Whether the field is declared `optional`.
    pub proto3_optional: bool,
}

/// A message: the input or the output of a method.
pub struct Message {
    pub name: String,
    pub full_name: String,
    pub fields: Vec<Field>,
    /// Whether the message declares a `oneof`.
    pub has_oneofs: bool,
}

/// A method of a service.
pub struct Method {
    pub name: String,
    pub index: usize,
    pub comments: Option<String>,
    pub input: Message,
    pub output: Message,
}

/// A service of the backend, with its methods in order.
pub struct Service {
    pub index: usize,
    pub methods: Vec<Method>,
}

/// A `Kind` as mathematical values.
pub enum KindView {
    Int32,
    Fixed32,
    Sfixed32,
    Sint32,
    Uint32,
    Int64,
    Sint64,
    Sfixed64,
    Uint64,
    Fixed64,
    Float,
    Double,
    Bool,
    String,
    Bytes,
    Message(Seq<char>),
    Enum(Seq<char>),
}

/// A `Label` as mathematical values.
pub enum LabelView {
    Single,
    List,
    Mapping(KindView, KindView),
}

/// A `Field` as mathematical values.
pub struct FieldView {
    pub name: Seq<char>,
    pub kind: KindView,
    pub label: LabelView,
    pub proto3_optional: bool,
}

/// A `Message` as mathematical values.
pub struct MessageView {
    pub name: Seq<char>,
    pub full_name: Seq<char>,
    pub fields: Seq<FieldView>,
    pub has_oneofs: bool,
}

/// A `Method` as mathematical values.
pub struct MethodView {
    pub name: Seq<char>,
    pub index: usize,
    pub comments: Option<Seq<char>>,
    pub input: MessageView,
    pub output: MessageView,
}

/// A `Service` as mathematical values.
pub struct ServiceView {
    pub index: usize,
    pub methods: Seq<MethodView>,
}

impl View for Kind {
    type V = KindView;

    open spec fn view(&self) -> KindView {
        match self {
            Kind::Int32 => KindView::Int32,
            Kind::Fixed32 => KindView::Fixed32,
            Kind::Sfixed32 => KindView::Sfixed32,
            Kind::Sint32 => KindView::Sint32,
            Kind::Uint32 => KindView::Uint32,
            Kind::Int64 => KindView::Int64,
            Kind::Sint64 => KindView::Sint64,
            Kind::Sfixed64 => KindView::Sfixed64,
            Kind::Uint64 => KindView::Uint64,
            Kind::Fixed64 => KindView::Fixed64,
            Kind::Float => KindView::Float,
            Kind::Double => KindView::Double,
            Kind::Bool => KindView::Bool,
            Kind::String => KindView::String,
            Kind::Bytes => KindView::Bytes,
            Kind::Message(name) => KindView::Message(name@),
            Kind::Enum(name) => KindView::Enum(name@),
        }
    }
}

impl View for Label {
    type V = LabelView;

    open spec fn view(&self) -> LabelView {
        match self {
            Label::Single => LabelView::Single,
            Label::List => LabelView::List,
            Label::Mapping(key, value) => LabelView::Mapping(key@, value@),
        }
    }
}

impl View for Field {
    type V = FieldView;

    open spec fn view(&self) -> FieldView {
        FieldView {
            name: self.name@,
            kind: self.kind@,
            label: self.label@,
            proto3_optional: self.proto3_optional,
        }
    }
}

/// The views of a sequence of fields, in the same order.
pub open spec fn field_views(fields: Seq<Field>) -> Seq<FieldView> {
    fields.map_values(|f: Field| f@)
}

impl View for Message {
    type V = MessageView;

    open spec fn view(&self) -> MessageView {
        MessageView {
            name: self.name@,
            full_name: self.full_name@,
            fields: field_views(self.fields@),
            has_oneofs: self.has_oneofs,
        }
    }
}

/// The view of a string that may be missing.
pub open spec fn option_view(text: Option<String>) -> Option<Seq<char>> {
    match text {
        Some(t) => Some(t@),
        None => None,
    }
}

impl View for Method {
    type V = MethodView;

    open spec fn view(&self) -> MethodView {
        MethodView {
            name: self.name@,
            index: self.index,
            comments: option_view(self.comments),
            input: self.input@,
            output: self.output@,
        }
    }
}

/// The views of a sequence of methods, in the same order.
pub open spec fn method_views(methods: Seq<Method>) -> Seq<MethodView> {
    methods.map_values(|m: Method| m@)
}

impl View for Service {
    type V = ServiceView;

    open spec fn view(&self) -> ServiceView {
        ServiceView { index: self.index, methods: method_views(self.methods@) }
    }
}

/// The views of a sequence of services, in the same order.
pub open spec fn service_views(services: Seq<Service>) -> Seq<ServiceView> {
    services.map_values(|s: Service| s@)
}

/// The start of the generated file, up to the first method.
pub const HEADER: &'static str = "/* Auto-generated from the .proto files in AnkiDroidBackend. */

@file:Suppress(\"NAME_SHADOWING\", \"UNUSED_VARIABLE\")
        
package anki.backend;

import com.google.protobuf.InvalidProtocolBufferException;

import net.ankiweb.rsdroid.BackendException;

public abstract class GeneratedBackend {

    @Throws(BackendException::class)
    protected abstract fun runMethodRaw(service: Int, method: Int, input: ByteArray): ByteArray;

";

/// The start of the generated file, as characters.
pub open spec fn header_text() -> Seq<char> {
    HEADER@
}

/// The documentation comment of a method: the text between the marks of a
/// Kotlin documentation comment, and a line feed; nothing where the method
/// has no comment.
pub open spec fn comments_text(comments: Option<Seq<char>>) -> Seq<char> {
    match comments {
        Some(c) => "/** "@ + c + " */\n"@,
        None => Seq::empty(),
    }
}

/// The Kotlin type of a single value of a kind: `Int` for the kinds of 32
/// bits, `Long` for those of 64 bits, the full name for a message or an
/// enum.
pub open spec fn kind_text(kind: KindView) -> Seq<char> {
    match kind {
        KindView::Int32 | KindView::Fixed32 | KindView::Sfixed32 | KindView::Sint32 => "Int"@,
        KindView::Uint32 => "Int"@,
        KindView::Int64 | KindView::Sint64 | KindView::Sfixed64 => "Long"@,
        KindView::Uint64 | KindView::Fixed64 => "Long"@,
        KindView::Float => "Float"@,
        KindView::Double => "Double"@,
        KindView::Bool => "Boolean"@,
        KindView::String => "String"@,
        KindView::Bytes => "com.google.protobuf.ByteString"@,
        KindView::Message(name) => name,
        KindView::Enum(name) => name,
    }
}

/// The Kotlin type of a field: a `List` of its kind, a `Map` from the kind
/// of its keys to the kind of its values, or its kind alone.
pub open spec fn kotlin_type_text(field: FieldView) -> Seq<char> {
    match field.label {
        LabelView::List => "List<"@ + kind_text(field.kind) + ">"@,
        LabelView::Mapping(key, value) => "Map<"@ + kind_text(key) + ","@ + kind_text(value) + ">"@,
        LabelView::Single => kind_text(field.kind),
    }
}

/// A name in camel case as a Kotlin parameter: `val` goes between backticks.
pub open spec fn arg_name_text(camel_name: Seq<char>) -> Seq<char> {
    if camel_name == "val"@ {
        "`val`"@
    } else {
        camel_name
    }
}

/// A name in camel case as the property of a generated message: `List` is
/// put after the name of a list, and `val` goes between backticks.
pub open spec fn field_name_text(camel_name: Seq<char>, is_list: bool) -> Seq<char> {
    if is_list {
        camel_name + "List"@
    } else if camel_name == "val"@ {
        "`val`"@
    } else {
        camel_name
    }
}

/// The property of a generated message that holds a field.
pub open spec fn field_property(field: FieldView) -> Seq<char> {
    field_name_text(camel_case(field.name), field.label is List)
}

/// The parameter of a method that stands for a field.
pub open spec fn field_arg(field: FieldView) -> Seq<char> {
    arg_name_text(camel_case(field.name))
}

/// A parameter with its type: any `Iterable` is taken where the field is a
/// `List`.
pub open spec fn method_argument_text(arg_name: Seq<char>, kotlin_type: Seq<char>) -> Seq<char> {
    arg_name + ": "@ + replaced_all(kotlin_type, "List<"@, "Iterable<"@)
}

/// The parameters of a method that takes the fields of a message, with a
/// comma and a space between them.
pub open spec fn method_arguments_text(fields: Seq<FieldView>) -> Seq<char> {
    joined(
        fields.map_values(|f: FieldView| method_argument_text(field_arg(f), kotlin_type_text(f))),
        ", "@,
    )
}

/// The start of the name of the method of a builder that takes a field.
pub open spec fn setter_op(label: LabelView) -> Seq<char> {
    match label {
        LabelView::List => "addAll"@,
        LabelView::Mapping(_, _) => "putAll"@,
        LabelView::Single => "set"@,
    }
}

/// The statement that hands a parameter to the builder of the input
/// message; for an optional field it is made only where the parameter is
/// not null.
pub open spec fn setter_text(
    arg_name: Seq<char>,
    pascal_name: Seq<char>,
    label: LabelView,
    optional: bool,
) -> Seq<char> {
    let setter = "\n        builder."@ + setter_op(label) + pascal_name + "("@ + arg_name + ")"@;
    if optional {
        "if ("@ + arg_name + " != null) {\n    "@ + setter + "\n      }"@
    } else {
        setter
    }
}

/// The statement that hands the parameter of a field to the builder.
pub open spec fn field_setter(field: FieldView) -> Seq<char> {
    setter_text(field_arg(field), pascal_case(field.name), field.label, field.proto3_optional)
}

/// The statements that hand the parameters to the builder of the input
/// message, one for each field.
pub open spec fn input_message_arguments_text(fields: Seq<FieldView>) -> Seq<char> {
    joined(fields.map_values(|f: FieldView| field_setter(f)), ""@)
}

/// Whether a method takes the fields of its input message as parameters:
/// it does where the name of the message ends in `Request` or the message
/// has less than two fields, and the message declares no `oneof`.
pub open spec fn destructures_input(input: MessageView) -> bool {
    ("Request"@.is_suffix_of(input.name) || input.fields.len() < 2) && !input.has_oneofs
}

/// The parameters of a method: the fields of the input message, or the
/// message itself.
pub open spec fn input_params_text(input: MessageView) -> Seq<char> {
    if destructures_input(input) {
        method_arguments_text(input.fields)
    } else {
        "input: "@ + input.full_name
    }
}

/// The statements that build the input message from the parameters; none
/// where the method takes the message itself.
pub open spec fn input_assign_text(input: MessageView) -> Seq<char> {
    if destructures_input(input) {
        "\n        val builder = "@ + input.full_name + ".newBuilder()"@
            + input_message_arguments_text(input.fields) + "\n        val input = builder.build() "@
    } else {
        Seq::empty()
    }
}

/// Whether a method returns the only field of its output message in place
/// of the message: it does where the message has one field and that field
/// is no enum.
pub open spec fn returns_single_field(output: MessageView) -> bool {
    output.fields.len() == 1 && !(output.fields[0].kind is Enum)
}

/// The expression that a method returns: nothing for the empty message, the
/// only field of the output message, or the message.
pub open spec fn output_expr_text(output: MessageView) -> Seq<char> {
    if output.full_name == "anki.generic.Empty"@ {
        ""@
    } else if returns_single_field(output) {
        "output."@ + field_property(output.fields[0])
    } else {
        "output"@
    }
}

/// The type that a method returns: `Unit` for the empty message, the type of
/// the only field of the output message, or the class of the message.
pub open spec fn output_type_text(output: MessageView) -> Seq<char> {
    if output.full_name == "anki.generic.Empty"@ {
        "Unit"@
    } else if returns_single_field(output) {
        kotlin_type_text(output.fields[0])
    } else {
        output.full_name
    }
}

/// The source of the two Kotlin methods of a method of a service, made of
/// its parts: the one that takes and returns bytes, and the one that takes
/// the parameters and returns the output.
pub open spec fn method_source_text(
    comments: Seq<char>,
    method_name: Seq<char>,
    service_index: usize,
    method_index: usize,
    input_params: Seq<char>,
    input_assign: Seq<char>,
    output_type: Seq<char>,
    output_constructor: Seq<char>,
    output_expr: Seq<char>,
) -> Seq<char> {
    comments + "    fun "@ + method_name
        + "Raw(input: ByteArray): ByteArray {\n        return runMethodRaw("@ + decimal(
        service_index as nat,
    ) + ", "@ + decimal(method_index as nat) + ", input)\n    }\n"@ + comments
        + "\n    open fun "@ + method_name + "("@ + input_params + "): "@ + output_type + " {"@
        + input_assign + "\n        val outputData = "@ + method_name
        + "Raw(input.toByteArray())\n        val output = "@ + output_constructor
        + ".parseFrom(outputData)\n        return "@ + output_expr + "\n    }\n\n"@
}

/// The source of the two Kotlin methods of a method of the service with
/// index `service_index`.
pub open spec fn rendered_method(service_index: usize, method: MethodView) -> Seq<char> {
    method_source_text(
        comments_text(method.comments),
        camel_case(method.name),
        service_index,
        method.index,
        input_params_text(method.input),
        input_assign_text(method.input),
        output_type_text(method.output),
        method.output.full_name,
        output_expr_text(method.output),
    )
}

/// The sources of the methods of a service, one after the other.
pub open spec fn rendered_service(service: ServiceView) -> Seq<char> {
    joined(service.methods.map_values(|m: MethodView| rendered_method(service.index, m)), ""@)
}

/// The sources of the methods of all services, one after the other.
pub open spec fn rendered_services(services: Seq<ServiceView>) -> Seq<char> {
    joined(services.map_values(|s: ServiceView| rendered_service(s)), ""@)
}

/// The generated file: the header, the methods of all services, and the
/// brace that closes the class, with two line feeds.
pub open spec fn interface_text(services: Seq<ServiceView>) -> Seq<char> {
    header_text() + rendered_services(services) + "}\n\n"@
}

/// The documentation comment of a method in Kotlin.
pub fn format_comments(path: &Option<String>) -> (out: String)
    ensures
        out@ == comments_text(option_view(*path)),
{
    match path {
        Some(c) => {
            let mut out = String::from_str("/** ");
            out.append(c.as_str());
            out.append(" */\n");
            out
        },
        None => String::new(),
    }
}

/// The Kotlin class of a message or an enum: its full name as it stands.
pub fn full_name_to_kotlin_class(name: &str) -> (class: String)
    ensures
        class@ == name@,
{
    String::from_str(name)
}

/// Appends the start of the generated file to `out`.
pub fn write_header(out: &mut String)
    ensures
        final(out)@ == old(out)@ + header_text(),
{
    out.append(HEADER);
}

/// The Kotlin type of a single value of a kind.
pub fn kind_name(kind: &Kind) -> (out: String)
    ensures
        out@ == kind_text(kind@),
{
    match kind {
        Kind::Int32 | Kind::Fixed32 | Kind::Sfixed32 | Kind::Sint32 => String::from_str("Int"),
        Kind::Uint32 => String::from_str("Int"),
        Kind::Int64 | Kind::Sint64 | Kind::Sfixed64 => String::from_str("Long"),
        Kind::Uint64 | Kind::Fixed64 => String::from_str("Long"),
        Kind::Float => String::from_str("Float"),
        Kind::Double => String::from_str("Double"),
        Kind::Bool => String::from_str("Boolean"),
        Kind::String => String::from_str("String"),
        Kind::Bytes => String::from_str("com.google.protobuf.ByteString"),
        Kind::Message(name) => full_name_to_kotlin_class(name.as_str()),
        Kind::Enum(name) => full_name_to_kotlin_class(name.as_str()),
    }
}

/// The Kotlin type of a field.
pub fn kotlin_type(field: &Field) -> (out: String)
    ensures
        out@ == kotlin_type_text(field@),
{
    match &field.label {
        Label::List => {
            let mut out = String::from_str("List<");
            out.append(kind_name(&field.kind).as_str());
            out.append(">");
            out
        },
        Label::Mapping(key, value) => {
            let mut out = String::from_str("Map<");
            out.append(kind_name(key).as_str());
            out.append(",");
            out.append(kind_name(value).as_str());
            out.append(">");
            out
        },
        Label::Single => kind_name(&field.kind),
    }
}

/// Whether the field holds a list.
pub fn is_list(field: &Field) -> (list: bool)
    ensures
        list == (field@.label is List),
{
    match &field.label {
        Label::List => true,
        _ => false,
    }
}

/// A name in camel case as the property of a generated message.
pub fn to_field_name(camel_name: String, is_list: bool) -> (out: String)
    ensures
        out@ == field_name_text(camel_name@, is_list),
{
    if is_list {
        let mut out = camel_name;
        out.append("List");
        out
    } else if str_eq(camel_name.as_str(), "val") {
        String::from_str("`val`")
    } else {
        camel_name
    }
}

/// A name in camel case as a Kotlin parameter.
pub fn to_arg_name(camel_name: String) -> (out: String)
    ensures
        out@ == arg_name_text(camel_name@),
{
    if str_eq(camel_name.as_str(), "val") {
        String::from_str("`val`")
    } else {
        camel_name
    }
}

/// The property of a generated message that holds `field`.
pub fn field_name_to_kotlin(field: &Field) -> (out: String)
    ensures
        out@ == field_property(field@),
{
    to_field_name(to_camel_case(field.name.as_str()), is_list(field))
}

/// The parameter of a method that stands for `field`.
pub fn field_name_to_kotlin_arg(field: &Field) -> (out: String)
    ensures
        out@ == field_arg(field@),
{
    to_arg_name(to_camel_case(field.name.as_str()))
}

/// A parameter with its type.
pub fn method_argument(arg_name: &str, kotlin_type: &str) -> (out: String)
    ensures
        out@ == method_argument_text(arg_name@, kotlin_type@),
{
    proof {
        reveal_strlit("List<");
    }
    let mut out = String::from_str(arg_name);
    out.append(": ");
    out.append(replace_all(kotlin_type, "List<", "Iterable<").as_str());
    out
}

/// The parameters of a method that takes the fields of `input`.
pub fn build_method_arguments(input: &Message) -> (out: String)
    ensures
        out@ == method_arguments_text(input@.fields),
{
    let ghost wanted = input@.fields.map_values(
        |f: FieldView| method_argument_text(field_arg(f), kotlin_type_text(f)),
    );
    let mut args: Vec<String> = Vec::new();
    let mut i: usize = 0;
    while i < input.fields.len()
        invariant
            i <= input.fields.len(),
            wanted == input@.fields.map_values(
                |f: FieldView| method_argument_text(field_arg(f), kotlin_type_text(f)),
            ),
            string_views(args@) == wanted.take(i as int),
        decreases input.fields.len() - i,
    {
        let field = &input.fields[i];
        let ghost before = string_views(args@);
        let arg = method_argument(
            field_name_to_kotlin_arg(field).as_str(),
            kotlin_type(field).as_str(),
        );
        args.push(arg);
        assert(string_views(args@) =~= before.push(wanted[i as int]));
        i = i + 1;
        assert(before.push(wanted[i - 1]) =~= wanted.take(i as int));
    }
    assert(wanted.take(i as int) =~= wanted);
    join(&args, ", ")
}

/// The statement that hands a parameter to the builder of the input
/// message.
pub fn setter(arg_name: &str, pascal_name: &str, label: &Label, optional: bool) -> (out: String)
    ensures
        out@ == setter_text(arg_name@, pascal_name@, label@, optional),
{
    let op = match label {
        Label::List => "addAll",
        Label::Mapping(_, _) => "putAll",
        Label::Single => "set",
    };
    let mut setter = String::from_str("\n        builder.");
    setter.append(op);
    setter.append(pascal_name);
    setter.append("(");
    setter.append(arg_name);
    setter.append(")");
    if optional {
        let mut out = String::from_str("if (");
        out.append(arg_name);
        out.append(" != null) {\n    ");
        out.append(setter.as_str());
        out.append("\n      }");
        out
    } else {
        setter
    }
}

/// The statements that hand the parameters to the builder of `input`.
pub fn build_input_message_arguments(input: &Message) -> (out: String)
    ensures
        out@ == input_message_arguments_text(input@.fields),
{
    let ghost wanted = input@.fields.map_values(|f: FieldView| field_setter(f));
    let mut setters: Vec<String> = Vec::new();
    let mut i: usize = 0;
    while i < input.fields.len()
        invariant
            i <= input.fields.len(),
            wanted == input@.fields.map_values(|f: FieldView| field_setter(f)),
            string_views(setters@) == wanted.take(i as int),
        decreases input.fields.len() - i,
    {
        let field = &input.fields[i];
        let ghost before = string_views(setters@);
        let name = field_name_to_kotlin_arg(field);
        let pascal_name = to_pascal_case(field.name.as_str());
        setters.push(
            setter(name.as_str(), pascal_name.as_str(), &field.label, field.proto3_optional),
        );
        assert(string_views(setters@) =~= before.push(wanted[i as int]));
        i = i + 1;
        assert(before.push(wanted[i - 1]) =~= wanted.take(i as int));
    }
    assert(wanted.take(i as int) =~= wanted);
    join(&setters, "")
}

/// The parameters of a method and the statements that build its input
/// message from them.
pub fn maybe_destructured_input(input: &Message) -> (res: (String, String))
    ensures
        res.0@ == input_params_text(input@),
        res.1@ == input_assign_text(input@),
{
    if (ends_with(input.name.as_str(), "Request") || input.fields.len() < 2) && !input.has_oneofs {
        let method_args = build_method_arguments(input);
        let input_type = full_name_to_kotlin_class(input.full_name.as_str());
        let input_message_args = build_input_message_arguments(input);
        let mut assignment = String::from_str("\n        val builder = ");
        assignment.append(input_type.as_str());
        assignment.append(".newBuilder()");
        assignment.append(input_message_args.as_str());
        assignment.append("\n        val input = builder.build() ");
        (method_args, assignment)
    } else {
        let mut params = String::from_str("input: ");
        params.append(full_name_to_kotlin_class(input.full_name.as_str()).as_str());
        (params, String::new())
    }
}

/// The expression that a method returns, and its type.
pub fn maybe_destructured_output(output: &Message) -> (res: (String, String))
    ensures
        res.0@ == output_expr_text(output@),
        res.1@ == output_type_text(output@),
{
    if str_eq(output.full_name.as_str(), "anki.generic.Empty") {
        return (String::from_str(""), String::from_str("Unit"));
    }
    let single = output.fields.len() == 1 && match &output.fields[0].kind {
        Kind::Enum(_) => false,
        _ => true,
    };
    if single {
        let field = &output.fields[0];
        let mut expr = String::from_str("output.");
        expr.append(field_name_to_kotlin(field).as_str());
        (expr, kotlin_type(field))
    } else {
        (String::from_str("output"), full_name_to_kotlin_class(output.full_name.as_str()))
    }
}

/// Appends to `out` the source of the two Kotlin methods of a method of a
/// service, made of its parts.
pub fn write_method(
    out: &mut String,
    comments: &str,
    method_name: &str,
    service_index: usize,
    method_index: usize,
    input_params: &str,
    input_assign: &str,
    output_type: &str,
    output_constructor: &str,
    output_expr: &str,
)
    ensures
        final(out)@ == old(out)@ + method_source_text(
            comments@,
            method_name@,
            service_index,
            method_index,
            input_params@,
            input_assign@,
            output_type@,
            output_constructor@,
            output_expr@,
        ),
{
    let mut text = String::from_str(comments);
    text.append("    fun ");
    text.append(method_name);
    text.append("Raw(input: ByteArray): ByteArray {\n        return runMethodRaw(");
    text.append(usize_to_string(service_index).as_str());
    text.append(", ");
    text.append(usize_to_string(method_index).as_str());
    text.append(", input)\n    }\n");
    text.append(comments);
    text.append("\n    open fun ");
    text.append(method_name);
    text.append("(");
    text.append(input_params);
    text.append("): ");
    text.append(output_type);
    text.append(" {");
    text.append(input_assign);
    text.append("\n        val outputData = ");
    text.append(method_name);
    text.append("Raw(input.toByteArray())\n        val output = ");
    text.append(output_constructor);
    text.append(".parseFrom(outputData)\n        return ");
    text.append(output_expr);
    text.append("\n    }\n\n");
    out.append(text.as_str());
}

/// Appends to `out` the source of the two Kotlin methods of `method`, a
/// method of the service with index `service_index`.
pub fn render_method(service_index: usize, method: &Method, out: &mut String)
    ensures
        final(out)@ == old(out)@ + rendered_method(service_index, method@),
{
    let method_name = to_camel_case(method.name.as_str());
    let comments = format_comments(&method.comments);
    let (input_params, input_assign) = maybe_destructured_input(&method.input);
    let (output_expr, output_type) = maybe_destructured_output(&method.output);
    write_method(
        out,
        comments.as_str(),
        method_name.as_str(),
        service_index,
        method.index,
        input_params.as_str(),
        input_assign.as_str(),
        output_type.as_str(),
        method.output.full_name.as_str(),
        output_expr.as_str(),
    );
}

/// Appends to `out` the generated file for `services`: the header, the
/// methods of the services in order, and the end of the class.
pub fn write_kotlin_interface(services: &[Service], out: &mut String)
    ensures
        final(out)@ == old(out)@ + interface_text(service_views(services@)),
{
    write_header(out);
    let ghost base = out@;
    let ghost wanted = service_views(services@).map_values(|s: ServiceView| rendered_service(s));
    let mut s: usize = 0;
    while s < services.len()
        invariant
            s <= services.len(),
            wanted == service_views(services@).map_values(|s: ServiceView| rendered_service(s)),
            out@ == base + joined(wanted.take(s as int), ""@),
        decreases services.len() - s,
    {
        let service = &services[s];
        let ghost start = out@;
        let ghost methods = service@.methods.map_values(
            |m: MethodView| rendered_method(service@.index, m),
        );
        let mut m: usize = 0;
        while m < service.methods.len()
            invariant
                m <= service.methods.len(),
                methods == service@.methods.map_values(
                    |m: MethodView| rendered_method(service@.index, m),
                ),
                out@ == start + joined(methods.take(m as int), ""@),
            decreases service.methods.len() - m,
        {
            render_method(service.index, &service.methods[m], out);
            proof {
                lemma_joined_plain_next(methods, m as int);
            }
            m = m + 1;
        }
        proof {
            assert(methods.take(m as int) =~= methods);
            lemma_joined_plain_next(wanted, s as int);
        }
        s = s + 1;
    }
    assert(wanted.take(s as int) =~= wanted);
    out.append("}\n\n");
}

} // verus!
