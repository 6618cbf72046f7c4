//! What the interface generators share: trait paths, the description of an
//! interface trait read from a source file, and the per-function data that
//! the generated code is built from.
use vstd::prelude::*;
use vstd::string::{StringExecFns, StrSliceExecFns};
use crate::syn_source::{parse_file_items, parsed_file_items};

verus! {

/// Where, scanning left to right and skipping each `::` found, the text
/// after the last separator starts (`start` is where the current piece
/// started, `i` where scanning resumes).
pub open spec fn last_piece_start(s: Seq<char>, i: int, start: int) -> int
    decreases s.len() - i,
{
    if i < 0 || i + 2 > s.len() {
        start
    } else if s[i] == ':' && s[i + 1] == ':' {
        last_piece_start(s, i + 2, i + 2)
    } else {
        last_piece_start(s, i + 1, start)
    }
}

/// The last piece of a path split at `::`; the whole path when it has no
/// separator.
pub open spec fn last_path_piece(s: Seq<char>) -> Seq<char> {
    s.subrange(last_piece_start(s, 0, 0), s.len() as int)
}

proof fn lemma_last_piece_start(s: Seq<char>, i: int, start: int)
    requires
        0 <= start <= i,
        start == 0 || (start >= 2 && s[start - 2] == ':' && s[start - 1] == ':'),
        start <= s.len(),
        forall|k: int| start <= k < i && k + 1 < s.len() ==> !(s[k] == ':' && #[trigger] s[k + 1] == ':'),
    ensures
        ({
            let r = last_piece_start(s, i, start);
            &&& start <= r <= s.len()
            &&& r == 0 || (r >= 2 && s[r - 2] == ':' && s[r - 1] == ':')
            &&& forall|k: int| r <= k && k + 1 < s.len() ==> !(s[k] == ':' && #[trigger] s[k + 1] == ':')
        }),
    decreases s.len() - i,
{
    if i + 2 > s.len() {
    } else if s[i] == ':' && s[i + 1] == ':' {
        lemma_last_piece_start(s, i + 2, i + 2);
    } else {
        lemma_last_piece_start(s, i + 1, start);
    }
}

/// A trait's name is the path's last piece: the whole path when it holds
/// no `::`, else what follows a `::`, and it holds no `::` itself.
pub proof fn law_trait_name_is_last_piece(s: Seq<char>)
    ensures
        ({
            let name = last_path_piece(s);
            let start = s.len() - name.len();
            &&& 0 <= start <= s.len()
            &&& s.subrange(start, s.len() as int) == name
            &&& start == 0 || (start >= 2 && s[start - 2] == ':' && s[start - 1] == ':')
            &&& forall|k: int| 0 <= k && k + 1 < name.len() ==> !(name[k] == ':' && #[trigger] name[k + 1] == ':')
        }),
{
    lemma_last_piece_start(s, 0, 0);
    let r = last_piece_start(s, 0, 0);
    let name = last_path_piece(s);
    assert forall|k: int| 0 <= k && k + 1 < name.len() implies !(name[k] == ':' && #[trigger] name[k + 1] == ':') by {
        assert(name[k] == s[r + k] && name[k + 1] == s[r + k + 1]);
    }
}

/// The trait's own name, taken from a path such as `krate::module::Trait`.
pub fn extract_trait_name_from_path(trait_path: &str) -> (name: &str)
    ensures
        name@ == last_path_piece(trait_path@),
{
    let len = trait_path.unicode_len();
    let mut i: usize = 0;
    let mut start: usize = 0;
    while i <= len && len - i >= 2
        invariant
            len == trait_path@.len(),
            start <= i,
            start <= len,
            i <= len,
            last_piece_start(trait_path@, i as int, start as int) == last_piece_start(
                trait_path@,
                0,
                0,
            ),
        decreases len - i,
    {
        if trait_path.get_char(i) == ':' && trait_path.get_char(i + 1) == ':' {
            i = i + 2;
            start = i;
        } else {
            i = i + 1;
        }
    }
    trait_path.substring_char(start, len)
}

/// Index of the first `::` at or after `i`, if any.
pub open spec fn first_separator_from(s: Seq<char>, i: int) -> Option<int>
    decreases s.len() - i,
{
    if i < 0 || i + 2 > s.len() {
        None
    } else if s[i] == ':' && s[i + 1] == ':' {
        Some(i)
    } else {
        first_separator_from(s, i + 1)
    }
}

/// The crate a trait path starts with: the text before its first `::`;
/// `None` when the path has no separator.
pub fn crate_name_of_path(trait_path: &str) -> (name: Option<&str>)
    ensures
        match first_separator_from(trait_path@, 0) {
            Some(k) => name matches Some(n) && n@ == trait_path@.subrange(0, k),
            None => name is None,
        },
{
    let len = trait_path.unicode_len();
    let mut i: usize = 0;
    while i <= len && len - i >= 2
        invariant
            len == trait_path@.len(),
            i <= len,
            first_separator_from(trait_path@, i as int) == first_separator_from(trait_path@, 0),
        decreases len - i,
    {
        if trait_path.get_char(i) == ':' && trait_path.get_char(i + 1) == ':' {
            return Some(trait_path.substring_char(0, i));
        }
        i = i + 1;
    }
    None
}

/// One parameter of a function signature, as source text.
pub struct FnInput {
    /// Its attributes, as source text; empty when it has none.
    pub attrs: String,
    pub pattern: String,
    pub ty: String,
}

/// A function declared in an interface trait, as read from its source.
pub struct TraitFnSig {
    pub ident: String,
    pub is_unsafe: bool,
    /// The function takes `self` in some form.
    pub has_receiver: bool,
    pub inputs: Vec<FnInput>,
    /// The declared return type; `None` when the function returns `()`
    /// implicitly.
    pub output: Option<String>,
}

/// An item inside an interface trait.
pub enum TraitItemModel {
    Fn(TraitFnSig),
    /// Anything but a function (a constant, a type, a macro call).
    Other,
}

/// An interface trait: its name and its items in source order.
pub struct TraitModel {
    pub ident: String,
    pub items: Vec<TraitItemModel>,
}

/// The tree of a `use` item.
pub enum UseTreeModel {
    /// `first::rest`: a path whose first segment is `first`.
    Path { first: String, rest: String },
    /// A bare name, a rename, a glob or a group at the top level.
    Other,
}

/// A `use` item: its tree and its full source text.
pub struct UseItemModel {
    pub tree: UseTreeModel,
    pub text: String,
}

/// A top-level item of the file that declares an interface trait.
pub enum FileItem {
    Use(UseItemModel),
    Trait(TraitModel),
    Other,
}

/// Why code cannot be generated from an interface file.
#[derive(PartialEq, Eq, Structural, Debug, Clone, Copy)]
pub enum CodegenError {
    /// The trait path does not start with a crate name followed by `::`.
    NoCrateInTraitPath,
    /// A `use super::...` item, which cannot be copied elsewhere.
    SuperImport,
    /// A `use` item that is not a path.
    UnexpectedUseSyntax,
    /// The file holds items other than `use` items and traits.
    OnlyUseAndTraitItems,
    /// The file holds no trait.
    ExpectedTrait,
    /// The trait is not named as its path says.
    WrongTraitName,
    /// The trait holds an item that is not a function.
    NotAFunction,
    /// A trait function takes `self`.
    HasReceiver,
    /// The generated text is not a valid Rust file.
    Unformattable,
    /// The trait path does not parse as a Rust path.
    InvalidTraitPath,
    /// The source text does not parse as Rust.
    Unparsable,
    /// A type, pattern, name or `use` item uses syntax that the generators
    /// do not copy.
    UnsupportedSyntax,
}

/// Text of the parameters: `attributes pattern: type, ` for each.
pub open spec fn inputs_text(inputs: Seq<FnInput>) -> Seq<char>
    decreases inputs.len(),
{
    if inputs.len() == 0 {
        Seq::empty()
    } else {
        inputs_text(inputs.drop_last()) + inputs.last().attrs@ + inputs.last().pattern@ + ": "@ + inputs.last().ty@ + ", "@
    }
}

/// Text of the arguments that forward the parameters: `pattern, ` for each.
pub open spec fn inputs_without_types_text(inputs: Seq<FnInput>) -> Seq<char>
    decreases inputs.len(),
{
    if inputs.len() == 0 {
        Seq::empty()
    } else {
        inputs_without_types_text(inputs.drop_last()) + inputs.last().pattern@ + ", "@
    }
}

/// Text of the parameters with every pattern replaced by `_`.
pub open spec fn placeholder_inputs_text(inputs: Seq<FnInput>) -> Seq<char>
    decreases inputs.len(),
{
    if inputs.len() == 0 {
        Seq::empty()
    } else {
        placeholder_inputs_text(inputs.drop_last()) + "_: "@ + inputs.last().ty@ + ", "@
    }
}

/// The parameter texts of a list of parameters joined from two lists are
/// the texts of the first followed by those of the second; one parameter
/// is written `attributes pattern: type, `, forwarded as `pattern, ` and
/// given to a placeholder as `_: type, `.
pub proof fn law_parameter_texts_concatenate(a: Seq<FnInput>, b: Seq<FnInput>, x: FnInput)
    ensures
        inputs_text(a + b) == inputs_text(a) + inputs_text(b),
        inputs_without_types_text(a + b) == inputs_without_types_text(a) + inputs_without_types_text(b),
        placeholder_inputs_text(a + b) == placeholder_inputs_text(a) + placeholder_inputs_text(b),
        inputs_text(seq![x]) == x.attrs@ + x.pattern@ + ": "@ + x.ty@ + ", "@,
        inputs_without_types_text(seq![x]) == x.pattern@ + ", "@,
        placeholder_inputs_text(seq![x]) == "_: "@ + x.ty@ + ", "@,
    decreases b.len(),
{
    assert(seq![x].drop_last() =~= Seq::<FnInput>::empty());
    assert(seq![x].last() == x);
    assert(inputs_text(seq![x].drop_last()) == Seq::<char>::empty());
    assert(inputs_without_types_text(seq![x].drop_last()) == Seq::<char>::empty());
    assert(placeholder_inputs_text(seq![x].drop_last()) == Seq::<char>::empty());
    assert(inputs_text(seq![x]) =~= x.attrs@ + x.pattern@ + ": "@ + x.ty@ + ", "@);
    assert(inputs_without_types_text(seq![x]) =~= x.pattern@ + ", "@);
    assert(placeholder_inputs_text(seq![x]) =~= "_: "@ + x.ty@ + ", "@);
    if b.len() == 0 {
        assert(a + b =~= a);
        assert(inputs_text(a) + inputs_text(b) =~= inputs_text(a));
        assert(inputs_without_types_text(a) + inputs_without_types_text(b) =~= inputs_without_types_text(a));
        assert(placeholder_inputs_text(a) + placeholder_inputs_text(b) =~= placeholder_inputs_text(a));
    } else {
        law_parameter_texts_concatenate(a, b.drop_last(), x);
        assert((a + b).drop_last() =~= a + b.drop_last());
        assert((a + b).last() == b.last());
        assert(inputs_text(a + b) =~= inputs_text(a) + inputs_text(b));
        assert(inputs_without_types_text(a + b) =~= inputs_without_types_text(a) + inputs_without_types_text(b));
        assert(placeholder_inputs_text(a + b) =~= placeholder_inputs_text(a) + placeholder_inputs_text(b));
    }
}

/// Text of a return type as it follows a parameter list.
pub open spec fn output_text(output: Option<String>) -> Seq<char> {
    match output {
        Some(ty) => "-> "@ + ty@,
        None => Seq::empty(),
    }
}

/// The type a function returns, `()` when none is written.
pub open spec fn return_type_text(output: Option<String>) -> Seq<char> {
    match output {
        Some(ty) => ty@,
        None => "()"@,
    }
}

/// `unsafe ` for an unsafe function, nothing otherwise.
pub open spec fn unsafety_text(is_unsafe: bool) -> Seq<char> {
    if is_unsafe {
        "unsafe "@
    } else {
        Seq::empty()
    }
}

/// The exported symbol of a trait function: `__{trait}_{function}`.
pub open spec fn mangled_name_text(trait_name: Seq<char>, ident: Seq<char>) -> Seq<char> {
    "__"@ + trait_name + "_"@ + ident
}

/// Distinct functions of one trait get distinct exported symbols.
pub proof fn law_mangled_names_distinct(trait_name: Seq<char>, a: Seq<char>, b: Seq<char>)
    requires
        a != b,
    ensures
        mangled_name_text(trait_name, a) != mangled_name_text(trait_name, b),
{
    let prefix = "__"@ + trait_name + "_"@;
    assert(mangled_name_text(trait_name, a) =~= prefix + a);
    assert(mangled_name_text(trait_name, b) =~= prefix + b);
    if prefix + a == prefix + b {
        assert(a =~= (prefix + a).subrange(prefix.len() as int, (prefix + a).len() as int));
        assert(b =~= (prefix + b).subrange(prefix.len() as int, (prefix + b).len() as int));
    }
}

/// What the generators need of one trait function.
pub struct TraitFn {
    pub ident: String,
    pub is_unsafe: bool,
    pub inputs: String,
    pub inputs_without_types: String,
    pub placeholder_inputs: String,
    pub output: String,
    pub return_type: String,
    pub mangled_name: String,
}

/// The text of each part of a trait function that generated code uses.
pub struct FnText {
    pub ident: Seq<char>,
    pub is_unsafe: bool,
    pub inputs: Seq<char>,
    pub inputs_without_types: Seq<char>,
    pub placeholder_inputs: Seq<char>,
    pub output: Seq<char>,
    pub return_type: Seq<char>,
    pub mangled_name: Seq<char>,
}

impl View for TraitFn {
    type V = FnText;

    open spec fn view(&self) -> FnText {
        FnText {
            ident: self.ident@,
            is_unsafe: self.is_unsafe,
            inputs: self.inputs@,
            inputs_without_types: self.inputs_without_types@,
            placeholder_inputs: self.placeholder_inputs@,
            output: self.output@,
            return_type: self.return_type@,
            mangled_name: self.mangled_name@,
        }
    }
}

/// The parts of a trait function as text, for a trait named `trait_name`.
pub open spec fn sig_text(trait_name: Seq<char>, sig: TraitFnSig) -> FnText {
    FnText {
        ident: sig.ident@,
        is_unsafe: sig.is_unsafe,
        inputs: inputs_text(sig.inputs@),
        inputs_without_types: inputs_without_types_text(sig.inputs@),
        placeholder_inputs: placeholder_inputs_text(sig.inputs@),
        output: output_text(sig.output),
        return_type: return_type_text(sig.output),
        mangled_name: mangled_name_text(trait_name, sig.ident@),
    }
}

/// The fields of a `TraitFn` computed from the trait's name and a signature.
pub open spec fn trait_fn_matches(f: TraitFn, trait_name: Seq<char>, sig: TraitFnSig) -> bool {
    f@ == sig_text(trait_name, sig)
}

/// Copies a string.
pub fn copy_string(s: &String) -> (r: String)
    ensures
        r@ == s@,
{
    String::from_str(s.as_str())
}

/// Whether two strings hold the same characters.
pub fn same_text(a: &str, b: &str) -> (r: bool)
    ensures
        r == (a@ == b@),
{
    String::from_str(a) == String::from_str(b)
}

/// The three renderings of a parameter list that generated code needs.
pub(crate) fn render_inputs(inputs: &Vec<FnInput>) -> (r: (String, String, String))
    ensures
        r.0@ == inputs_text(inputs@),
        r.1@ == inputs_without_types_text(inputs@),
        r.2@ == placeholder_inputs_text(inputs@),
{
    let mut typed = String::new();
    let mut untyped = String::new();
    let mut placeholders = String::new();
    let mut i: usize = 0;
    while i < inputs.len()
        invariant
            0 <= i <= inputs@.len(),
            typed@ == inputs_text(inputs@.take(i as int)),
            untyped@ == inputs_without_types_text(inputs@.take(i as int)),
            placeholders@ == placeholder_inputs_text(inputs@.take(i as int)),
        decreases inputs@.len() - i,
    {
        let input = &inputs[i];
        proof {
            assert(inputs@.take(i as int + 1).drop_last() =~= inputs@.take(i as int));
        }
        typed.append(input.attrs.as_str());
        typed.append(input.pattern.as_str());
        typed.append(": ");
        typed.append(input.ty.as_str());
        typed.append(", ");
        untyped.append(input.pattern.as_str());
        untyped.append(", ");
        placeholders.append("_: ");
        placeholders.append(input.ty.as_str());
        placeholders.append(", ");
        i = i + 1;
        assert(typed@ =~= inputs_text(inputs@.take(i as int)));
        assert(untyped@ =~= inputs_without_types_text(inputs@.take(i as int)));
        assert(placeholders@ =~= placeholder_inputs_text(inputs@.take(i as int)));
    }
    assert(inputs@.take(inputs@.len() as int) =~= inputs@);
    (typed, untyped, placeholders)
}

/// Why a trait item cannot be turned into generated code, if it cannot.
pub fn trait_item_error(item: &TraitItemModel) -> (r: Option<CodegenError>)
    ensures
        r == item_error(*item),
{
    match item {
        TraitItemModel::Other => Some(CodegenError::NotAFunction),
        TraitItemModel::Fn(sig) => if sig.has_receiver {
            Some(CodegenError::HasReceiver)
        } else {
            None
        },
    }
}

/// What the generators need of a trait item, which must be a function
/// that does not take `self`.
pub fn for_each_trait_item(trait_name: &str, item: &TraitItemModel) -> (f: TraitFn)
    requires
        item_error(*item) is None,
    ensures
        trait_fn_matches(f, trait_name@, item->Fn_0),
{
    let sig = match item {
        TraitItemModel::Fn(sig) => sig,
        TraitItemModel::Other => {
            assert(false);
            return TraitFn {
                ident: String::new(),
                is_unsafe: false,
                inputs: String::new(),
                inputs_without_types: String::new(),
                placeholder_inputs: String::new(),
                output: String::new(),
                return_type: String::new(),
                mangled_name: String::new(),
            };
        },
    };
    let (inputs, inputs_without_types, placeholder_inputs) = render_inputs(&sig.inputs);
    let (output, return_type) = match &sig.output {
        Some(ty) => {
            let mut o = String::from_str("-> ");
            o.append(ty.as_str());
            (o, copy_string(ty))
        },
        None => (String::new(), String::from_str("()")),
    };
    let mut mangled_name = String::from_str("__");
    mangled_name.append(trait_name);
    mangled_name.append("_");
    mangled_name.append(sig.ident.as_str());
    TraitFn {
        ident: copy_string(&sig.ident),
        is_unsafe: sig.is_unsafe,
        inputs,
        inputs_without_types,
        placeholder_inputs,
        output,
        return_type,
        mangled_name,
    }
}

/// A `use` item as it must read in generated code: a path starting at
/// `crate` is rewritten to start at the crate's name, other paths are kept
/// as written; paths starting at `super` and non-path trees are refused.
pub open spec fn patched_use(u: UseItemModel, crate_name: Seq<char>) -> Result<Seq<char>, CodegenError> {
    match u.tree {
        UseTreeModel::Path { first, rest } => if first@ == "super"@ {
            Err(CodegenError::SuperImport)
        } else if first@ == "crate"@ {
            Ok("use "@ + crate_name + "::"@ + rest@ + ";"@)
        } else {
            Ok(u.text@)
        },
        UseTreeModel::Other => Err(CodegenError::UnexpectedUseSyntax),
    }
}

/// Why a `use` item cannot be copied into generated code, if it cannot.
pub fn use_item_error(item_use: &UseItemModel) -> (r: Option<CodegenError>)
    ensures
        r == (match patched_use(*item_use, Seq::empty()) {
            Ok(_) => None::<CodegenError>,
            Err(e) => Some(e),
        }),
{
    match &item_use.tree {
        UseTreeModel::Path { first, rest: _ } => {
            if same_text(first.as_str(), "super") {
                Some(CodegenError::SuperImport)
            } else {
                None
            }
        },
        UseTreeModel::Other => Some(CodegenError::UnexpectedUseSyntax),
    }
}

/// Rewrites a `use` item of an interface file for use in generated code;
/// the item must be a path that does not start at `super`.
pub fn patch_item_use_if_needed(item_use: &UseItemModel, crate_name: &str) -> (r: String)
    requires
        patched_use(*item_use, crate_name@) is Ok,
    ensures
        r@ == patched_use(*item_use, crate_name@)->Ok_0,
{
    match &item_use.tree {
        UseTreeModel::Path { first, rest } => {
            if same_text(first.as_str(), "crate") {
                let mut t = String::from_str("use ");
                t.append(crate_name);
                t.append("::");
                t.append(rest.as_str());
                t.append(";");
                t
            } else {
                copy_string(&item_use.text)
            }
        },
        UseTreeModel::Other => {
            assert(false);
            String::new()
        },
    }
}

/// The patched `use` items of a file, in order; the first refusal wins.
pub open spec fn patched_uses(items: Seq<FileItem>, crate_name: Seq<char>) -> Result<Seq<char>, CodegenError>
    decreases items.len(),
{
    if items.len() == 0 {
        Ok(Seq::empty())
    } else {
        match patched_uses(items.drop_last(), crate_name) {
            Err(e) => Err(e),
            Ok(t) => match items.last() {
                FileItem::Use(u) => match patched_use(u, crate_name) {
                    Ok(p) => Ok(t + p),
                    Err(e) => Err(e),
                },
                _ => Ok(t),
            },
        }
    }
}

/// Position of the first trait of the file at or after `i`, if any.
pub open spec fn first_trait_from(items: Seq<FileItem>, i: int) -> Option<int>
    decreases items.len() - i,
{
    if i < 0 || i >= items.len() {
        None
    } else if items[i] is Trait {
        Some(i)
    } else {
        first_trait_from(items, i + 1)
    }
}

proof fn lemma_first_trait_from(items: Seq<FileItem>, i: int)
    requires
        0 <= i,
    ensures
        first_trait_from(items, i) matches Some(t) ==> i <= t < items.len() && items[t] is Trait,
    decreases items.len() - i,
{
    if i < items.len() && !(items[i] is Trait) {
        lemma_first_trait_from(items, i + 1);
    }
}

/// What reading an interface file yields: the position of its trait and the
/// text of its `use` items as generated code needs them; or why the file
/// cannot be used. The checks come in this order: the trait path, the
/// `use` items, the kinds of items, the presence of a trait, its name.
pub open spec fn read_trait_file(
    trait_name: Seq<char>,
    trait_path: Seq<char>,
    items: Seq<FileItem>,
) -> Result<(int, Seq<char>), CodegenError> {
    match first_separator_from(trait_path, 0) {
        None => Err(CodegenError::NoCrateInTraitPath),
        Some(k) => match patched_uses(items, trait_path.subrange(0, k)) {
            Err(e) => Err(e),
            Ok(uses) => if exists|i: int| 0 <= i < items.len() && #[trigger] items[i] is Other {
                Err(CodegenError::OnlyUseAndTraitItems)
            } else {
                match first_trait_from(items, 0) {
                    None => Err(CodegenError::ExpectedTrait),
                    Some(t) => if items[t]->Trait_0.ident@ == trait_name {
                        Ok((t, uses))
                    } else {
                        Err(CodegenError::WrongTraitName)
                    },
                }
            },
        },
    }
}

/// Whether the file holds an item that is neither a `use` item nor a trait.
fn has_other_item(items: &Vec<FileItem>) -> (r: bool)
    ensures
        r == exists|i: int| 0 <= i < items@.len() && #[trigger] items@[i] is Other,
{
    let mut j: usize = 0;
    while j < items.len()
        invariant
            0 <= j <= items@.len(),
            forall|k: int| 0 <= k < j ==> !(#[trigger] items@[k] is Other),
        decreases items@.len() - j,
    {
        match &items[j] {
            FileItem::Other => {
                return true;
            },
            _ => {},
        }
        j = j + 1;
    }
    false
}

/// Position of the first trait of the file.
fn find_first_trait(items: &Vec<FileItem>) -> (r: Option<usize>)
    ensures
        match first_trait_from(items@, 0) {
            Some(t) => r matches Some(ti) && ti == t && 0 <= t < items@.len() && items@[t] is Trait,
            None => r is None,
        },
{
    proof {
        lemma_first_trait_from(items@, 0);
    }
    let mut t: usize = 0;
    while t < items.len()
        invariant
            0 <= t <= items@.len(),
            first_trait_from(items@, t as int) == first_trait_from(items@, 0),
        decreases items@.len() - t,
    {
        match &items[t] {
            FileItem::Trait(_) => {
                return Some(t);
            },
            _ => {},
        }
        t = t + 1;
    }
    None
}

/// The `use` items of the file rewritten for generated code, in order.
fn collect_uses(items: &Vec<FileItem>, crate_name: &str) -> (r: Result<String, CodegenError>)
    ensures
        match patched_uses(items@, crate_name@) {
            Ok(t) => r matches Ok(s) && s@ == t,
            Err(e) => r == Err::<String, CodegenError>(e),
        },
{
    let mut uses = String::new();
    let mut i: usize = 0;
    while i < items.len()
        invariant
            0 <= i <= items@.len(),
            patched_uses(items@.take(i as int), crate_name@) == Ok::<Seq<char>, CodegenError>(uses@),
        decreases items@.len() - i,
    {
        proof {
            assert(items@.take(i as int + 1).drop_last() =~= items@.take(i as int));
        }
        match &items[i] {
            FileItem::Use(u) => {
                match use_item_error(u) {
                    None => {
                        let p = patch_item_use_if_needed(u, crate_name);
                        uses.append(p.as_str());
                    },
                    Some(e) => {
                        proof {
                            lemma_patched_uses_error_sticks(items@, crate_name@, i as int + 1);
                        }
                        return Err(e);
                    },
                }
            },
            _ => {},
        }
        i = i + 1;
    }
    assert(items@.take(items@.len() as int) =~= items@);
    Ok(uses)
}

/// Reads an interface file, or says why it cannot be used.
fn read_trait_file_checked(trait_name: &str, trait_path: &str, items: &Vec<FileItem>) -> (r: Result<
    (usize, String),
    CodegenError,
>)
    ensures
        match read_trait_file(trait_name@, trait_path@, items@) {
            Ok((t, uses)) => r matches Ok((ti, u)) && ti == t && u@ == uses,
            Err(e) => r == Err::<(usize, String), CodegenError>(e),
        },
        r matches Ok((ti, _)) ==> ti < items@.len() && items@[ti as int] is Trait,
{
    let crate_name = match crate_name_of_path(trait_path) {
        Some(c) => c,
        None => return Err(CodegenError::NoCrateInTraitPath),
    };
    let uses = match collect_uses(items, crate_name) {
        Ok(u) => u,
        Err(e) => return Err(e),
    };
    if has_other_item(items) {
        return Err(CodegenError::OnlyUseAndTraitItems);
    }
    match find_first_trait(items) {
        None => Err(CodegenError::ExpectedTrait),
        Some(t) => {
            match &items[t] {
                FileItem::Trait(tr) => {
                    if same_text(tr.ident.as_str(), trait_name) {
                        Ok((t, uses))
                    } else {
                        Err(CodegenError::WrongTraitName)
                    }
                },
                _ => Err(CodegenError::ExpectedTrait),
            }
        },
    }
}

/// Why an interface file cannot be used, if it cannot: the trait path must
/// name a crate, `use` items must be paths not starting at `super`, the
/// file must hold only `use` items and traits, and its first trait must be
/// named `trait_name`.
pub fn trait_file_error(trait_name: &str, trait_path: &str, items: &Vec<FileItem>) -> (r: Option<CodegenError>)
    ensures
        r == (match read_trait_file(trait_name@, trait_path@, items@) {
            Ok(_) => None::<CodegenError>,
            Err(e) => Some(e),
        }),
{
    match read_trait_file_checked(trait_name, trait_path, items) {
        Ok(_) => None,
        Err(e) => Some(e),
    }
}

/// Reads an interface file that passes those checks: the position of its
/// trait and its `use` items rewritten for generated code.
pub fn parse_trait_file(trait_name: &str, trait_path: &str, items: &Vec<FileItem>) -> (r: (usize, String))
    requires
        read_trait_file(trait_name@, trait_path@, items@) is Ok,
    ensures
        r.0 == read_trait_file(trait_name@, trait_path@, items@)->Ok_0.0,
        r.1@ == read_trait_file(trait_name@, trait_path@, items@)->Ok_0.1,
        r.0 < items@.len() && items@[r.0 as int] is Trait,
{
    match read_trait_file_checked(trait_name, trait_path, items) {
        Ok(found) => found,
        Err(_) => {
            assert(false);
            (0, String::new())
        },
    }
}

/// What reading an interface file's text yields: the position of its
/// trait, the file's items and its rewritten `use` items; or why the file
/// cannot be used. The trait path is checked before the text is parsed.
pub open spec fn trait_file_text(
    trait_name: Seq<char>,
    trait_path: Seq<char>,
    text: Seq<char>,
) -> Result<(int, Seq<FileItem>, Seq<char>), CodegenError> {
    match first_separator_from(trait_path, 0) {
        None => Err(CodegenError::NoCrateInTraitPath),
        Some(_) => match parsed_file_items(text) {
            None => Err(CodegenError::Unparsable),
            Some(items) => match read_trait_file(trait_name, trait_path, items) {
                Ok((t, uses)) => Ok((t, items, uses)),
                Err(e) => Err(e),
            },
        },
    }
}

/// The items of a Rust source text; refused when it does not parse.
pub fn parse_file_text(text: &str) -> (r: Result<Vec<FileItem>, CodegenError>)
    ensures
        match parsed_file_items(text@) {
            Some(items) => r matches Ok(v) && v@ == items,
            None => r == Err::<Vec<FileItem>, CodegenError>(CodegenError::Unparsable),
        },
{
    match parse_file_items(text) {
        Some(items) => Ok(items),
        None => Err(CodegenError::Unparsable),
    }
}

/// Reads the text of the file that declares the interface trait
/// `trait_name` at `trait_path`: its trait's position, its items and its
/// `use` items rewritten for generated code; or why it cannot be used.
pub fn parse_trait_file_text(trait_name: &str, trait_path: &str, text: &str) -> (r: Result<
    (usize, Vec<FileItem>, String),
    CodegenError,
>)
    ensures
        match trait_file_text(trait_name@, trait_path@, text@) {
            Ok((t, items, uses)) => r matches Ok((ti, v, u)) && ti == t && v@ == items && u@ == uses,
            Err(e) => r == Err::<(usize, Vec<FileItem>, String), CodegenError>(e),
        },
{
    if crate_name_of_path(trait_path).is_none() {
        return Err(CodegenError::NoCrateInTraitPath);
    }
    let items = match parse_file_text(text) {
        Ok(items) => items,
        Err(e) => return Err(e),
    };
    match trait_file_error(trait_name, trait_path, &items) {
        Some(e) => Err(e),
        None => {
            let (t, uses) = parse_trait_file(trait_name, trait_path, &items);
            Ok((t, items, uses))
        },
    }
}

/// Once a `use` item is refused, so is every longer prefix of the file.
proof fn lemma_patched_uses_error_sticks(items: Seq<FileItem>, crate_name: Seq<char>, n: int)
    requires
        0 <= n <= items.len(),
        patched_uses(items.take(n), crate_name) is Err,
    ensures
        patched_uses(items, crate_name) == patched_uses(items.take(n), crate_name),
    decreases items.len() - n,
{
    if n < items.len() {
        assert(items.take(n + 1).drop_last() =~= items.take(n));
        lemma_patched_uses_error_sticks(items, crate_name, n + 1);
    } else {
        assert(items.take(n) =~= items);
    }
}

/// Why a trait item cannot be turned into generated code, if it cannot.
pub open spec fn item_error(item: TraitItemModel) -> Option<CodegenError> {
    match item {
        TraitItemModel::Other => Some(CodegenError::NotAFunction),
        TraitItemModel::Fn(sig) => if sig.has_receiver {
            Some(CodegenError::HasReceiver)
        } else {
            None
        },
    }
}

/// The refusal of the first item, in order, that cannot be used.
pub open spec fn first_item_error(items: Seq<TraitItemModel>) -> Option<CodegenError>
    decreases items.len(),
{
    if items.len() == 0 {
        None
    } else {
        match first_item_error(items.drop_last()) {
            Some(e) => Some(e),
            None => item_error(items.last()),
        }
    }
}

/// The text of every function of a trait whose items are all usable.
pub open spec fn fn_texts(trait_name: Seq<char>, items: Seq<TraitItemModel>) -> Seq<FnText> {
    items.map_values(|item: TraitItemModel| sig_text(trait_name, item->Fn_0))
}

/// Joins, in order, one piece of text per function.
pub open spec fn join_texts(fs: Seq<FnText>, piece: spec_fn(FnText) -> Seq<char>) -> Seq<char>
    decreases fs.len(),
{
    if fs.len() == 0 {
        Seq::empty()
    } else {
        join_texts(fs.drop_last(), piece) + piece(fs.last())
    }
}

/// Joining one more function's piece extends the text by that piece.
pub proof fn lemma_join_step(fs: Seq<FnText>, i: int, piece: spec_fn(FnText) -> Seq<char>)
    requires
        0 <= i < fs.len(),
    ensures
        join_texts(fs.take(i + 1), piece) == join_texts(fs.take(i), piece) + piece(fs[i]),
{
    assert(fs.take(i + 1).drop_last() =~= fs.take(i));
}

/// Joining all the pieces of a sequence.
pub proof fn lemma_join_all(fs: Seq<FnText>, piece: spec_fn(FnText) -> Seq<char>)
    ensures
        join_texts(fs.take(fs.len() as int), piece) == join_texts(fs, piece),
{
    assert(fs.take(fs.len() as int) =~= fs);
}

/// The functions of an interface trait, ready for code generation; the
/// first item that is not a function, or that takes `self`, is refused.
pub fn trait_fns(trait_name: &str, items: &Vec<TraitItemModel>) -> (r: Result<Vec<TraitFn>, CodegenError>)
    ensures
        match first_item_error(items@) {
            Some(e) => r == Err::<Vec<TraitFn>, CodegenError>(e),
            None => r matches Ok(fs) && fs@.map_values(|f: TraitFn| f@) == fn_texts(trait_name@, items@),
        },
{
    let mut fs: Vec<TraitFn> = Vec::new();
    let mut i: usize = 0;
    while i < items.len()
        invariant
            0 <= i <= items@.len(),
            first_item_error(items@.take(i as int)) is None,
            fs@.map_values(|f: TraitFn| f@) == fn_texts(trait_name@, items@.take(i as int)),
        decreases items@.len() - i,
    {
        proof {
            assert(items@.take(i as int + 1).drop_last() =~= items@.take(i as int));
        }
        match trait_item_error(&items[i]) {
            None => {
                let f = for_each_trait_item(trait_name, &items[i]);
                let ghost before = fs@;
                let ghost fv = f@;
                assert(fv == sig_text(trait_name@, items@[i as int]->Fn_0));
                fs.push(f);
                proof {
                    let lhs = fs@.map_values(|f: TraitFn| f@);
                    let rhs = fn_texts(trait_name@, items@.take(i as int + 1));
                    assert(before.map_values(|f: TraitFn| f@).len() == before.len());
                    assert(fn_texts(trait_name@, items@.take(i as int)).len() == i);
                    assert(before.len() == i);
                    assert(lhs.len() == rhs.len());
                    assert forall|j: int| 0 <= j < lhs.len() implies lhs[j] == rhs[j] by {
                        if j < i {
                            assert(fs@[j] == before[j]);
                            assert(before.map_values(|f: TraitFn| f@)[j] == fn_texts(trait_name@, items@.take(i as int))[j]);
                        } else {
                            assert(fs@[j] == f);
                        }
                    }
                    assert(lhs =~= rhs);
                }
            },
            Some(e) => {
                proof {
                    lemma_first_item_error_sticks(items@, i as int + 1);
                }
                return Err(e);
            },
        }
        i = i + 1;
    }
    assert(items@.take(items@.len() as int) =~= items@);
    Ok(fs)
}

/// Once an item is refused, the refusal stands for the whole trait.
proof fn lemma_first_item_error_sticks(items: Seq<TraitItemModel>, n: int)
    requires
        0 <= n <= items.len(),
        first_item_error(items.take(n)) is Some,
    ensures
        first_item_error(items) == first_item_error(items.take(n)),
    decreases items.len() - n,
{
    if n < items.len() {
        assert(items.take(n + 1).drop_last() =~= items.take(n));
        lemma_first_item_error_sticks(items, n + 1);
    } else {
        assert(items.take(n) =~= items);
    }
}

/// Whether `syn` parses the text as a Rust path (`syn::Path`).
pub uninterp spec fn parses_as_rust_path(text: Seq<char>) -> bool;

/// Calls `syn::parse_str::<syn::Path>` on the text. Claimed: whether it
/// parses is a function of the text alone, named `parses_as_rust_path`.
#[verifier::external_body]
fn parse_rust_path(text: &str) -> (r: bool)
    ensures
        r == parses_as_rust_path(text@),
{
    syn::parse_str::<syn::Path>(text).is_ok()
}

/// Whether the text is a Rust path, as a trait path must be where
/// generated code names the trait.
pub fn is_rust_path(text: &str) -> (r: bool)
    ensures
        r == parses_as_rust_path(text@),
{
    parse_rust_path(text)
}

/// The text `prettyplease` lays out for Rust source text that `syn`
/// parses as a file; `None` when it does not parse.
pub uninterp spec fn formatted_rust(code: Seq<char>) -> Option<Seq<char>>;

/// Calls `syn::parse_file` on the text and, when it parses, lays the file
/// out with `prettyplease::unparse`. `prettyplease` (without its
/// `verbatim` feature) panics on the syntax that `syn` keeps unparsed as
/// `Verbatim`; only source that the generators build is admitted: their
/// templates hold none of it, and `file_source` copies only plain pieces
/// (see `plain_syntax`), which hold none of the forms `syn` 2 keeps
/// unparsed and cannot close the item they stand in. Claimed: the result
/// is the named layout of the text, `None` exactly when `syn` refuses it.
#[verifier::external_body]
fn format_with_prettyplease(code: &str) -> (r: Option<String>)
    requires
        crate::interface_files::generated_source(code@),
    ensures
        match formatted_rust(code@) {
            Some(t) => r matches Some(s) && s@ == t,
            None => r is None,
        },
{
    match syn::parse_file(code) {
        Ok(file) => Some(prettyplease::unparse(&file)),
        Err(_) => None,
    }
}

/// Lays generated code out as Rust source; refused when it does not parse.
pub fn format_code(code: &str) -> (r: Result<String, CodegenError>)
    requires
        crate::interface_files::generated_source(code@),
    ensures
        match formatted_rust(code@) {
            Some(t) => r matches Ok(s) && s@ == t,
            None => r == Err::<String, CodegenError>(CodegenError::Unformattable),
        },
{
    match format_with_prettyplease(code) {
        Some(s) => Ok(s),
        None => Err(CodegenError::Unformattable),
    }
}

} // verus!
