//! The development tool that writes the source of a syntax tree from short
//! definitions of its node types, such as
//! `Binary : Expr left, Token operator, Expr right`.

use crate::errors::{IoErr, LoxError};
use crate::scanner::chars_of;
use crate::text::text_between;
use vstd::prelude::*;
use vstd::string::StringExecFns;

verus! {

pub open spec fn is_space(c: char) -> bool {
    c == ' ' || c == '\t' || c == '\n' || c == '\r'
}

/// The number of characters from `from` on that stand before the next `sep`.
pub open spec fn piece_len(s: Seq<char>, from: int, sep: char) -> nat
    decreases s.len() - from,
{
    if 0 <= from < s.len() && s[from] != sep {
        1 + piece_len(s, from + 1, sep)
    } else {
        0
    }
}

/// The pieces of `s` from `from` on between every two `sep`, after the
/// pieces `done`: as many as there are `sep`, and one more.
pub open spec fn pieces_from(s: Seq<char>, from: int, sep: char, done: Seq<Seq<char>>) -> Seq<Seq<char>>
    decreases s.len() - from,
{
    if from < 0 || from > s.len() {
        done
    } else {
        let end = from + piece_len(s, from, sep);
        let longer = done.push(s.subrange(from, end));
        if end < s.len() {
            pieces_from(s, end + 1, sep, longer)
        } else {
            longer
        }
    }
}

/// The pieces of `s` between every two `sep`.
pub open spec fn pieces(s: Seq<char>, sep: char) -> Seq<Seq<char>> {
    pieces_from(s, 0, sep, Seq::empty())
}

/// The number of white-space characters of `s` from `from` on, up to the
/// first other character.
pub open spec fn leading(s: Seq<char>, from: int) -> nat
    decreases s.len() - from,
{
    if 0 <= from < s.len() && is_space(s[from]) {
        1 + leading(s, from + 1)
    } else {
        0
    }
}

/// The number of white-space characters at the end of the first `upto`
/// characters of `s`.
pub open spec fn trailing(s: Seq<char>, upto: int) -> nat
    decreases upto,
{
    if 0 < upto <= s.len() && is_space(s[upto - 1]) {
        1 + trailing(s, upto - 1)
    } else {
        0
    }
}

/// `s` without the white space at its ends.
pub open spec fn trimmed(s: Seq<char>) -> Seq<char> {
    let start = leading(s, 0);
    if start >= s.len() {
        Seq::empty()
    } else {
        s.subrange(start as int, s.len() - trailing(s, s.len() as int))
    }
}

pub struct FieldView {
    pub field_type: Seq<char>,
    pub field_name: Seq<char>,
}

pub struct TypeView {
    pub name_of_type: Seq<char>,
    pub fields_of_type: Seq<FieldView>,
}

/// The field that `raw` defines: its type and its name are the first two
/// words; a definition of one word is invalid.
pub open spec fn field_of(raw: Seq<char>) -> Option<FieldView> {
    let words = pieces(trimmed(raw), ' ');
    if words.len() >= 2 {
        Some(FieldView { field_type: words[0], field_name: words[1] })
    } else {
        None
    }
}

/// The fields that the definitions `raws` from the index `i` on define,
/// after the fields `done`; `None` where one of them is invalid.
pub open spec fn fields_of(raws: Seq<Seq<char>>, i: nat, done: Seq<FieldView>) -> Option<Seq<FieldView>>
    decreases raws.len() - i,
{
    if i >= raws.len() {
        Some(done)
    } else {
        match field_of(raws[i as int]) {
            Some(f) => fields_of(raws, i + 1, done.push(f)),
            None => None,
        }
    }
}

/// The node type that `raw` defines: its name stands before the first
/// colon, the definitions of its fields behind it, between commas. A
/// definition without a colon is invalid.
pub open spec fn type_of(raw: Seq<char>) -> Option<TypeView> {
    let halves = pieces(raw, ':');
    if halves.len() >= 2 {
        match fields_of(pieces(trimmed(halves[1]), ','), 0, Seq::empty()) {
            Some(fields_of_type) => Some(TypeView { name_of_type: trimmed(halves[0]), fields_of_type }),
            None => None,
        }
    } else {
        None
    }
}

/// The node types that the definitions `raws` from the index `i` on
/// define, after the types `done`.
pub open spec fn types_of(raws: Seq<Seq<char>>, i: nat, done: Seq<TypeView>) -> Option<Seq<TypeView>>
    decreases raws.len() - i,
{
    if i >= raws.len() {
        Some(done)
    } else {
        match type_of(raws[i as int]) {
            Some(t) => types_of(raws, i + 1, done.push(t)),
            None => None,
        }
    }
}

/// The variants of the enum for the first `n` types.
pub open spec fn variants_text(types: Seq<TypeView>, n: nat) -> Seq<char>
    decreases n,
{
    if n == 0 || n > types.len() {
        Seq::empty()
    } else {
        variants_text(types, (n - 1) as nat) + "\t"@ + types[n - 1].name_of_type + "("@ + types[n
            - 1].name_of_type + "),\n"@
    }
}

/// The enum with one variant for each type.
pub open spec fn enum_text(base: Seq<char>, types: Seq<TypeView>) -> Seq<char> {
    "pub enum "@ + base + " {\n"@ + variants_text(types, types.len()) + "}\n\n"@
}

/// The field `f` in the struct of its type: a field of the base type is
/// boxed.
pub open spec fn member_text(base: Seq<char>, f: FieldView) -> Seq<char> {
    if f.field_type == base {
        "\t"@ + f.field_name + ": Box<"@ + f.field_type + ">,\n"@
    } else {
        "\t"@ + f.field_name + ": "@ + f.field_type + ",\n"@
    }
}

pub open spec fn members_text(base: Seq<char>, fields: Seq<FieldView>, n: nat) -> Seq<char>
    decreases n,
{
    if n == 0 || n > fields.len() {
        Seq::empty()
    } else {
        members_text(base, fields, (n - 1) as nat) + member_text(base, fields[n - 1])
    }
}

pub open spec fn struct_text(base: Seq<char>, t: TypeView) -> Seq<char> {
    "pub struct "@ + t.name_of_type + " {\n"@ + members_text(base, t.fields_of_type, t.fields_of_type.len())
        + "}\n\n"@
}

pub open spec fn structs_text(base: Seq<char>, types: Seq<TypeView>, n: nat) -> Seq<char>
    decreases n,
{
    if n == 0 || n > types.len() {
        Seq::empty()
    } else {
        structs_text(base, types, (n - 1) as nat) + struct_text(base, types[n - 1])
    }
}

/// The parameters of `new` for the first `n` fields, with a comma between
/// every two.
pub open spec fn parameters_text(fields: Seq<FieldView>, n: nat) -> Seq<char>
    decreases n,
{
    if n == 0 || n > fields.len() {
        Seq::empty()
    } else if n == 1 {
        fields[0].field_name + ": "@ + fields[0].field_type
    } else {
        parameters_text(fields, (n - 1) as nat) + ", "@ + fields[n - 1].field_name + ": "@
            + fields[n - 1].field_type
    }
}

/// The field `f` in the body of `new`: a field of the base type is boxed.
pub open spec fn init_text(base: Seq<char>, f: FieldView) -> Seq<char> {
    if f.field_type == base {
        "\t\t\t"@ + f.field_name + ": Box::new("@ + f.field_name + "),\n"@
    } else {
        "\t\t\t"@ + f.field_name + ",\n"@
    }
}

pub open spec fn inits_text(base: Seq<char>, fields: Seq<FieldView>, n: nat) -> Seq<char>
    decreases n,
{
    if n == 0 || n > fields.len() {
        Seq::empty()
    } else {
        inits_text(base, fields, (n - 1) as nat) + init_text(base, fields[n - 1])
    }
}

pub open spec fn new_text(base: Seq<char>, t: TypeView) -> Seq<char> {
    "impl "@ + t.name_of_type + " {\n"@ + "\tpub fn new("@ + parameters_text(
        t.fields_of_type,
        t.fields_of_type.len(),
    ) + ") -> Self {\n"@ + "\t\tSelf {\n"@ + inits_text(base, t.fields_of_type, t.fields_of_type.len())
        + "\t\t}\n"@ + "\t}\n"@ + "}\n\n"@
}

pub open spec fn news_text(base: Seq<char>, types: Seq<TypeView>, n: nat) -> Seq<char>
    decreases n,
{
    if n == 0 || n > types.len() {
        Seq::empty()
    } else {
        news_text(base, types, (n - 1) as nat) + new_text(base, types[n - 1])
    }
}

/// The generated source: the import, the enum, the structs and their
/// constructors.
pub open spec fn generated_text(base: Seq<char>, types: Seq<TypeView>) -> Seq<char> {
    "use super::token::Token;\n\n"@ + enum_text(base, types) + structs_text(
        base,
        types,
        types.len(),
    ) + news_text(base, types, types.len())
}

pub struct AstTypeField {
    pub field_type: String,
    pub field_name: String,
}

pub struct AstType {
    pub name_of_type: String,
    pub fields_of_type: Vec<AstTypeField>,
}

impl View for AstTypeField {
    type V = FieldView;

    open spec fn view(&self) -> FieldView {
        FieldView { field_type: self.field_type@, field_name: self.field_name@ }
    }
}

pub open spec fn field_views(fields: Seq<AstTypeField>) -> Seq<FieldView> {
    fields.map_values(|f: AstTypeField| f@)
}

impl View for AstType {
    type V = TypeView;

    open spec fn view(&self) -> TypeView {
        TypeView { name_of_type: self.name_of_type@, fields_of_type: field_views(self.fields_of_type@) }
    }
}

pub open spec fn type_views(types: Seq<AstType>) -> Seq<TypeView> {
    types.map_values(|t: AstType| t@)
}

pub open spec fn char_views(pieces: Seq<Vec<char>>) -> Seq<Seq<char>> {
    pieces.map_values(|p: Vec<char>| p@)
}

pub open spec fn string_views(strings: Seq<String>) -> Seq<Seq<char>> {
    strings.map_values(|s: String| s@)
}

/// The characters of `chars` from `start` up to `end`.
fn slice(chars: &Vec<char>, start: usize, end: usize) -> (r: Vec<char>)
    requires
        start <= end <= chars.len(),
    ensures
        r@ == chars@.subrange(start as int, end as int),
{
    let mut r: Vec<char> = Vec::new();
    let mut i = start;
    assert(r@ =~= chars@.subrange(start as int, i as int));
    while i < end
        invariant
            start <= i <= end <= chars.len(),
            r@ == chars@.subrange(start as int, i as int),
        decreases end - i,
    {
        r.push(chars[i]);
        i += 1;
        assert(r@ =~= chars@.subrange(start as int, i as int));
    }
    r
}

/// The pieces of `chars` between every two `sep`.
fn split(chars: &Vec<char>, sep: char) -> (r: Vec<Vec<char>>)
    ensures
        char_views(r@) == pieces(chars@, sep),
{
    let mut done: Vec<Vec<char>> = Vec::new();
    assert(char_views(done@) =~= Seq::<Seq<char>>::empty());
    let mut from: usize = 0;
    loop
        invariant_except_break
            from <= chars.len(),
            pieces_from(chars@, from as int, sep, char_views(done@)) == pieces(chars@, sep),
        ensures
            char_views(done@) == pieces(chars@, sep),
        decreases chars.len() - from,
    {
        let mut end = from;
        while end < chars.len() && chars[end] != sep
            invariant
                from <= end <= chars.len(),
                from + piece_len(chars@, from as int, sep) == end + piece_len(
                    chars@,
                    end as int,
                    sep,
                ),
            decreases chars.len() - end,
        {
            end += 1;
        }
        let piece = slice(chars, from, end);
        let ghost pushed = char_views(done@).push(piece@);
        done.push(piece);
        assert(char_views(done@) =~= pushed);
        if end < chars.len() {
            from = end + 1;
        } else {
            break ;
        }
    }
    done
}

fn is_space_char(c: char) -> (r: bool)
    ensures
        r == is_space(c),
{
    c == ' ' || c == '\t' || c == '\n' || c == '\r'
}

/// `chars` without the white space at its ends.
fn trim(chars: &Vec<char>) -> (r: Vec<char>)
    ensures
        r@ == trimmed(chars@),
{
    let mut start: usize = 0;
    while start < chars.len() && is_space_char(chars[start])
        invariant
            start <= chars.len(),
            leading(chars@, 0) == start + leading(chars@, start as int),
        decreases chars.len() - start,
    {
        start += 1;
    }
    if start >= chars.len() {
        let empty: Vec<char> = Vec::new();
        assert(empty@ =~= Seq::<char>::empty());
        return empty;
    }
    let mut end: usize = chars.len();
    while end > 0 && is_space_char(chars[end - 1])
        invariant
            end <= chars.len(),
            start < chars.len(),
            !is_space(chars@[start as int]),
            start < end,
            trailing(chars@, chars.len() as int) == (chars.len() - end) + trailing(
                chars@,
                end as int,
            ),
        decreases end,
    {
        end -= 1;
        assert(end > start) by {
            if end == start {
                assert(is_space(chars@[start as int]));
            }
        }
    }
    slice(chars, start, end)
}

/// The field that `raw` defines.
fn parse_field(raw: &Vec<char>) -> (r: Option<AstTypeField>)
    ensures
        match r {
            Some(f) => field_of(raw@) == Some(f@),
            None => field_of(raw@) is None,
        },
{
    let words = split(&trim(raw), ' ');
    if words.len() >= 2 {
        assert(char_views(words@)[0] == words[0]@);
        assert(char_views(words@)[1] == words[1]@);
        assert(words[0]@.subrange(0, words[0].len() as int) =~= words[0]@);
        assert(words[1]@.subrange(0, words[1].len() as int) =~= words[1]@);
        Some(
            AstTypeField {
                field_type: text_between(&words[0], 0, words[0].len()),
                field_name: text_between(&words[1], 0, words[1].len()),
            },
        )
    } else {
        None
    }
}

/// The node type that `raw` defines.
#[verifier::loop_isolation(false)]
fn parse_type(raw: &String) -> (r: Option<AstType>)
    ensures
        match r {
            Some(t) => type_of(raw@) == Some(t@),
            None => type_of(raw@) is None,
        },
{
    let halves = split(&chars_of(raw.as_str()), ':');
    if halves.len() < 2 {
        return None;
    }
    assert(char_views(halves@)[0] == halves[0]@);
    assert(char_views(halves@)[1] == halves[1]@);
    let raws = split(&trim(&halves[1]), ',');
    let mut fields: Vec<AstTypeField> = Vec::new();
    assert(field_views(fields@) =~= Seq::<FieldView>::empty());
    let mut i: usize = 0;
    while i < raws.len()
        invariant
            i <= raws.len(),
            fields_of(char_views(raws@), i as nat, field_views(fields@)) == fields_of(
                char_views(raws@),
                0,
                Seq::empty(),
            ),
        decreases raws.len() - i,
    {
        assert(char_views(raws@)[i as int] == raws[i as int]@);
        match parse_field(&raws[i]) {
            Some(f) => {
                let ghost pushed = field_views(fields@).push(f@);
                fields.push(f);
                assert(field_views(fields@) =~= pushed);
            },
            None => {
                assert(fields_of(char_views(raws@), i as nat, field_views(fields@)) is None);
                return None;
            },
        }
        i += 1;
    }
    let name = trim(&halves[0]);
    assert(name@.subrange(0, name.len() as int) =~= name@);
    Some(AstType { name_of_type: text_between(&name, 0, name.len()), fields_of_type: fields })
}

/// The generator of the source of a syntax tree.
pub struct AstGenerator {
    generated_code: String,
    base_enum_name: String,
    ast_types: Vec<AstType>,
}

impl AstGenerator {
    /// The source generated so far.
    pub closed spec fn code(&self) -> Seq<char> {
        self.generated_code@
    }

    /// The name of the enum of all node types.
    pub closed spec fn base(&self) -> Seq<char> {
        self.base_enum_name@
    }

    /// The node types.
    pub closed spec fn types(&self) -> Seq<TypeView> {
        type_views(self.ast_types@)
    }

    /// A generator for the node types that `raw_ast_types` define; an
    /// invalid definition is an error.
    #[verifier::loop_isolation(false)]
    pub fn new(base_enum_name: String, raw_ast_types: Vec<String>) -> (r: Result<Self, LoxError>)
        ensures
            match types_of(string_views(raw_ast_types@), 0, Seq::empty()) {
                Some(types) => r is Ok && r->Ok_0.types() == types && r->Ok_0.base()
                    == base_enum_name@ && r->Ok_0.code() == Seq::<char>::empty(),
                None => r is Err && r->Err_0 == LoxError::Io(IoErr::ASTSyntaxInvalid),
            },
    {
        let mut ast_types: Vec<AstType> = Vec::new();
        assert(type_views(ast_types@) =~= Seq::<TypeView>::empty());
        let mut i: usize = 0;
        while i < raw_ast_types.len()
            invariant
                i <= raw_ast_types.len(),
                types_of(string_views(raw_ast_types@), i as nat, type_views(ast_types@))
                    == types_of(string_views(raw_ast_types@), 0, Seq::empty()),
            decreases raw_ast_types.len() - i,
        {
            assert(string_views(raw_ast_types@)[i as int] == raw_ast_types[i as int]@);
            match parse_type(&raw_ast_types[i]) {
                Some(t) => {
                    let ghost pushed = type_views(ast_types@).push(t@);
                    ast_types.push(t);
                    assert(type_views(ast_types@) =~= pushed);
                },
                None => {
                    assert(types_of(
                        string_views(raw_ast_types@),
                        i as nat,
                        type_views(ast_types@),
                    ) is None);
                    return Err(LoxError::Io(IoErr::ASTSyntaxInvalid));
                },
            }
            i += 1;
        }
        Ok(Self { generated_code: String::new(), base_enum_name, ast_types })
    }

    fn add_content(&mut self, content: &str)
        ensures
            final(self).code() == old(self).code() + content@,
            final(self).base_enum_name == old(self).base_enum_name,
            final(self).ast_types == old(self).ast_types,
    {
        self.generated_code.append(content);
    }

    /// Adds the enum with one variant for each type.
    fn define_enums(&mut self)
        ensures
            final(self).code() == old(self).code() + enum_text(old(self).base(), old(self).types()),
            final(self).base_enum_name == old(self).base_enum_name,
            final(self).ast_types == old(self).ast_types,
    {
        let mut content = "pub enum ".to_owned();
        content.append(self.base_enum_name.as_str());
        content.append(" {\n");
        let ghost head = content@;
        let mut i: usize = 0;
        assert(content@ =~= head + variants_text(self.types(), 0));
        while i < self.ast_types.len()
            invariant
                i <= self.ast_types.len(),
                content@ == head + variants_text(self.types(), i as nat),
            decreases self.ast_types.len() - i,
        {
            let name = self.ast_types[i].name_of_type.as_str();
            assert(self.types()[i as int] == self.ast_types[i as int]@);
            content.append("\t");
            content.append(name);
            content.append("(");
            content.append(name);
            content.append("),\n");
            i += 1;
            assert(content@ =~= head + variants_text(self.types(), i as nat));
        }
        content.append("}\n\n");
        assert(content@ =~= enum_text(self.base(), self.types()));
        self.add_content(content.as_str());
    }

    /// The field `f` in the struct of its type.
    fn member(&self, f: &AstTypeField) -> (s: String)
        ensures
            s@ == member_text(self.base(), f@),
    {
        let mut s = "\t".to_owned();
        s.append(f.field_name.as_str());
        if f.field_type == self.base_enum_name {
            s.append(": Box<");
            s.append(f.field_type.as_str());
            s.append(">,\n");
        } else {
            s.append(": ");
            s.append(f.field_type.as_str());
            s.append(",\n");
        }
        s
    }

    /// The struct of the type `t`.
    fn define_struct(&self, t: &AstType) -> (s: String)
        ensures
            s@ == struct_text(self.base(), t@),
    {
        let mut s = "pub struct ".to_owned();
        s.append(t.name_of_type.as_str());
        s.append(" {\n");
        let ghost head = s@;
        let mut i: usize = 0;
        assert(s@ =~= head + members_text(self.base(), t@.fields_of_type, 0));
        while i < t.fields_of_type.len()
            invariant
                i <= t.fields_of_type.len(),
                s@ == head + members_text(self.base(), t@.fields_of_type, i as nat),
            decreases t.fields_of_type.len() - i,
        {
            assert(t@.fields_of_type[i as int] == t.fields_of_type[i as int]@);
            let member = self.member(&t.fields_of_type[i]);
            s.append(member.as_str());
            i += 1;
            assert(s@ =~= head + members_text(self.base(), t@.fields_of_type, i as nat));
        }
        s.append("}\n\n");
        assert(s@ =~= struct_text(self.base(), t@));
        s
    }

    /// Adds the struct of each type.
    fn define_structs(&mut self)
        ensures
            final(self).code() == old(self).code() + structs_text(
                old(self).base(),
                old(self).types(),
                old(self).types().len(),
            ),
            final(self).base_enum_name == old(self).base_enum_name,
            final(self).ast_types == old(self).ast_types,
    {
        let mut content = String::new();
        let mut i: usize = 0;
        assert(content@ =~= structs_text(self.base(), self.types(), 0));
        while i < self.ast_types.len()
            invariant
                i <= self.ast_types.len(),
                content@ == structs_text(self.base(), self.types(), i as nat),
            decreases self.ast_types.len() - i,
        {
            assert(self.types()[i as int] == self.ast_types[i as int]@);
            let one = self.define_struct(&self.ast_types[i]);
            content.append(one.as_str());
            i += 1;
        }
        self.add_content(content.as_str());
    }

    /// The constructor of the type `t`.
    fn define_new(&self, t: &AstType) -> (s: String)
        ensures
            s@ == new_text(self.base(), t@),
    {
        let mut params = String::new();
        let mut i: usize = 0;
        assert(params@ =~= parameters_text(t@.fields_of_type, 0));
        while i < t.fields_of_type.len()
            invariant
                i <= t.fields_of_type.len(),
                params@ == parameters_text(t@.fields_of_type, i as nat),
            decreases t.fields_of_type.len() - i,
        {
            assert(t@.fields_of_type[i as int] == t.fields_of_type[i as int]@);
            assert(t@.fields_of_type[0] == t.fields_of_type[0]@);
            if i > 0 {
                params.append(", ");
            }
            params.append(t.fields_of_type[i].field_name.as_str());
            params.append(": ");
            params.append(t.fields_of_type[i].field_type.as_str());
            i += 1;
            assert(params@ =~= parameters_text(t@.fields_of_type, i as nat));
        }
        let mut inits = String::new();
        let mut j: usize = 0;
        assert(inits@ =~= inits_text(self.base(), t@.fields_of_type, 0));
        while j < t.fields_of_type.len()
            invariant
                j <= t.fields_of_type.len(),
                inits@ == inits_text(self.base(), t@.fields_of_type, j as nat),
            decreases t.fields_of_type.len() - j,
        {
            assert(t@.fields_of_type[j as int] == t.fields_of_type[j as int]@);
            let f = &t.fields_of_type[j];
            inits.append("\t\t\t");
            inits.append(f.field_name.as_str());
            if f.field_type == self.base_enum_name {
                inits.append(": Box::new(");
                inits.append(f.field_name.as_str());
                inits.append("),\n");
            } else {
                inits.append(",\n");
            }
            j += 1;
            assert(inits@ =~= inits_text(self.base(), t@.fields_of_type, j as nat));
        }
        let mut s = "impl ".to_owned();
        s.append(t.name_of_type.as_str());
        s.append(" {\n");
        s.append("\tpub fn new(");
        s.append(params.as_str());
        s.append(") -> Self {\n");
        s.append("\t\tSelf {\n");
        s.append(inits.as_str());
        s.append("\t\t}\n");
        s.append("\t}\n");
        s.append("}\n\n");
        assert(s@ =~= new_text(self.base(), t@));
        s
    }

    /// Adds the constructor of each type.
    fn define_new_func(&mut self)
        ensures
            final(self).code() == old(self).code() + news_text(
                old(self).base(),
                old(self).types(),
                old(self).types().len(),
            ),
            final(self).base_enum_name == old(self).base_enum_name,
            final(self).ast_types == old(self).ast_types,
    {
        let mut content = String::new();
        let mut i: usize = 0;
        assert(content@ =~= news_text(self.base(), self.types(), 0));
        while i < self.ast_types.len()
            invariant
                i <= self.ast_types.len(),
                content@ == news_text(self.base(), self.types(), i as nat),
            decreases self.ast_types.len() - i,
        {
            assert(self.types()[i as int] == self.ast_types[i as int]@);
            let one = self.define_new(&self.ast_types[i]);
            content.append(one.as_str());
            i += 1;
        }
        self.add_content(content.as_str());
    }

    /// Generates the source: the import, the enum, the structs and their
    /// constructors, behind what was generated before. The result is the
    /// source generated so far.
    pub fn gen_(&mut self) -> (code: &String)
        ensures
            code@ == final(self).code(),
            final(self).code() == old(self).code() + generated_text(
                old(self).base(),
                old(self).types(),
            ),
            final(self).base() == old(self).base(),
            final(self).types() == old(self).types(),
    {
        self.add_content("use super::token::Token;\n\n");
        self.define_enums();
        self.define_structs();
        self.define_new_func();
        assert(self.code() =~= old(self).code() + generated_text(old(self).base(), old(self).types()));
        &self.generated_code
    }

    /// The name of the enum of all node types.
    pub fn base_name(&self) -> (name: &String)
        ensures
            name@ == self.base(),
    {
        &self.base_enum_name
    }
}

} // verus!
