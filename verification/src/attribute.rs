//! The decisions behind the `#[animate]` attribute: which fields become
//! tweens or springs, in which mode, and which paths and names the generated
//! code uses. Reading the attribute and writing the generated code are left
//! to the caller; everything decided in between is here.

use vstd::prelude::*;
use crate::text::{lowercase_of, str_eq, to_lowercase};

verus! {

/// The kind of animation a field asks for.
#[derive(Debug, Clone, Copy, PartialEq, Eq, Structural, Default)]
pub enum AnimType {
    #[default]
    Tween,
    Spring,
}

/// The playback mode a field asks for.
#[derive(Debug, Clone, Copy, PartialEq, Eq, Structural, Default)]
pub enum AnimMode {
    #[default]
    Once,
    Cycle,
    Alternate,
}

/// The attribute word that names a mode.
pub open spec fn mode_word(m: AnimMode) -> Seq<char> {
    match m {
        AnimMode::Once => "once"@,
        AnimMode::Cycle => "cycle"@,
        AnimMode::Alternate => "alternate"@,
    }
}

/// The name of the marker type of a mode.
pub open spec fn mode_type_name(m: AnimMode) -> Seq<char> {
    match m {
        AnimMode::Once => "Once"@,
        AnimMode::Cycle => "Cycle"@,
        AnimMode::Alternate => "Alternate"@,
    }
}

/// The mode an attribute word names, if any.
pub open spec fn mode_of_word(s: Seq<char>) -> Option<AnimMode> {
    if s == "once"@ {
        Some(AnimMode::Once)
    } else if s == "cycle"@ {
        Some(AnimMode::Cycle)
    } else if s == "alternate"@ {
        Some(AnimMode::Alternate)
    } else {
        None
    }
}

/// The marker type named by a mode word; anything else falls back to `Once`.
pub open spec fn mode_type_of_word(s: Seq<char>) -> Seq<char> {
    match mode_of_word(s) {
        Some(m) => mode_type_name(m),
        None => "Once"@,
    }
}

impl AnimMode {
    /// Reads a mode from its attribute word; `None` for an unknown word.
    pub fn from_string(value: &str) -> (r: Option<AnimMode>)
        ensures
            r == mode_of_word(value@),
    {
        if str_eq(value, "once") {
            Some(AnimMode::Once)
        } else if str_eq(value, "cycle") {
            Some(AnimMode::Cycle)
        } else if str_eq(value, "alternate") {
            Some(AnimMode::Alternate)
        } else {
            None
        }
    }
}

/// The attribute word of a mode.
pub fn mode_token(mode: AnimMode) -> (r: &'static str)
    ensures
        r@ == mode_word(mode),
{
    match mode {
        AnimMode::Once => "once",
        AnimMode::Cycle => "cycle",
        AnimMode::Alternate => "alternate",
    }
}

/// The marker type a tween field uses for a mode word.
pub fn tween_mode_ident(mode: &str) -> (r: &'static str)
    ensures
        r@ == mode_type_of_word(mode@),
{
    mode_ident(mode)
}

/// The marker type a spring field uses for a mode word.
pub fn spring_mode_ident(mode: &str) -> (r: &'static str)
    ensures
        r@ == mode_type_of_word(mode@),
{
    mode_ident(mode)
}

fn mode_ident(mode: &str) -> (r: &'static str)
    ensures
        r@ == mode_type_of_word(mode@),
{
    if str_eq(mode, "once") {
        "Once"
    } else if str_eq(mode, "cycle") {
        "Cycle"
    } else if str_eq(mode, "alternate") {
        "Alternate"
    } else {
        "Once"
    }
}

/// Why a struct cannot carry `#[animate]`.
#[derive(Debug, Clone, Copy, PartialEq, Eq, Structural)]
pub enum AttrError {
    /// The item is an enum or a union.
    NotAStruct,
    /// The struct has tuple fields or none.
    NotNamedFields,
    /// The field at this position has both `#[spring]` and `#[tween]`.
    BothSpringAndTween(usize),
}

impl AttrError {
    /// The message reported for the error.
    pub fn message(&self) -> (m: &'static str)
        ensures
            m@ == match *self {
                AttrError::NotAStruct => "#[animate] only supports structs"@,
                AttrError::NotNamedFields => "#[animate] only supports named field structs"@,
                AttrError::BothSpringAndTween(_) => "field cannot have both #[spring] and #[tween]"@,
            },
    {
        match self {
            AttrError::NotAStruct => "#[animate] only supports structs",
            AttrError::NotNamedFields => "#[animate] only supports named field structs",
            AttrError::BothSpringAndTween(_) => "field cannot have both #[spring] and #[tween]",
        }
    }
}

/// The kind of animation named by a field's attributes, given whether it
/// carries `#[spring]` and whether it carries `#[tween]`.
pub open spec fn anim_type_of(has_spring: bool, has_tween: bool) -> Option<AnimType> {
    if has_spring {
        Some(AnimType::Spring)
    } else if has_tween {
        Some(AnimType::Tween)
    } else {
        None
    }
}

/// The animation kind of a field (the field at position `index`): an error
/// when it carries both attributes, none when it carries neither.
pub fn field_anim_type(index: usize, has_spring: bool, has_tween: bool) -> (r: Result<
    Option<AnimType>,
    AttrError,
>)
    ensures
        has_spring && has_tween ==> r == Err::<Option<AnimType>, AttrError>(
            AttrError::BothSpringAndTween(index),
        ),
        !(has_spring && has_tween) ==> r == Ok::<Option<AnimType>, AttrError>(
            anim_type_of(has_spring, has_tween),
        ),
{
    match (has_spring, has_tween) {
        (true, true) => Err(AttrError::BothSpringAndTween(index)),
        (true, false) => Ok(Some(AnimType::Spring)),
        (false, true) => Ok(Some(AnimType::Tween)),
        (false, false) => Ok(None),
    }
}

/// The mode of an animated field: the mode it asks for, `Once` when it asks
/// for none.
pub open spec fn effective_mode(mode: Option<AnimMode>) -> AnimMode {
    match mode {
        Some(m) => m,
        None => AnimMode::Once,
    }
}

/// The mode word of a field: none for a field that is not animated.
pub fn field_mode(mode: Option<AnimMode>, anim_type: Option<AnimType>) -> (r: Option<&'static str>)
    ensures
        anim_type is None ==> r is None,
        anim_type is Some ==> r is Some && r->0@ == mode_word(effective_mode(mode)),
{
    if anim_type.is_none() {
        return None;
    }
    let m = match mode {
        Some(m) => m,
        None => AnimMode::Once,
    };
    Some(mode_token(m))
}

/// The shape of a path written in an attribute: whether it starts with `::`
/// and how many segments it has.
#[derive(Debug, Clone, Copy, PartialEq, Eq, Structural)]
pub struct PathShape {
    pub leading_colon: bool,
    pub segments: usize,
}

/// A single name without a leading `::`.
pub open spec fn is_bare_name(p: PathShape) -> bool {
    !p.leading_colon && p.segments == 1
}

/// Where a tween's easing function is found.
#[derive(Debug, Clone, Copy, PartialEq, Eq, Structural)]
pub enum EasingPath {
    /// A bare name, looked up among the crate's easing functions.
    InEasingModule,
    /// A longer path, used as written.
    AsWritten,
    /// No easing given: the linear one.
    Linear,
}

/// Where the easing of a tween field comes from.
pub fn easing_path(path: Option<PathShape>) -> (r: EasingPath)
    ensures
        r == match path {
            Some(p) => if is_bare_name(p) { EasingPath::InEasingModule } else { EasingPath::AsWritten },
            None => EasingPath::Linear,
        },
{
    match path {
        Some(p) => {
            if !p.leading_colon && p.segments == 1 {
                EasingPath::InEasingModule
            } else {
                EasingPath::AsWritten
            }
        },
        None => EasingPath::Linear,
    }
}

/// Where a tween's interpolation function is found.
#[derive(Debug, PartialEq, Eq)]
pub enum InterpPath {
    /// A bare name, looked up in the crate's module for the field's type.
    InTypeModule(String),
    /// A longer path, used as written.
    AsWritten,
    /// No interpolation given: the type's own tween implementation.
    TypeDefault,
}

/// Module of the crate's `types` that holds the interpolations for a field
/// type, from the last segment of the type's path (`None` when the type is
/// not a path).
pub open spec fn type_module_of(name: Option<Seq<char>>) -> Seq<char> {
    match name {
        None => "unknown"@,
        Some(n) => if n == "String"@ {
            "string"@
        } else if is_number_type(n) {
            "num"@
        } else {
            lowercase_of(n)
        },
    }
}

/// The primitive number types.
pub open spec fn is_number_type(n: Seq<char>) -> bool {
    ||| n == "f64"@
    ||| n == "f32"@
    ||| n == "usize"@
    ||| n == "isize"@
    ||| n == "u64"@
    ||| n == "i64"@
    ||| n == "u32"@
    ||| n == "i32"@
    ||| n == "u16"@
    ||| n == "i16"@
    ||| n == "u8"@
    ||| n == "i8"@
}

/// The module of the crate's `types` for a field type whose path ends in
/// `name` (`None` when the type is not a path).
pub fn type_to_module(name: Option<&str>) -> (r: String)
    ensures
        r@ == type_module_of(
            match name {
                Some(n) => Some(n@),
                None => None,
            },
        ),
{
    match name {
        None => String::from_str("unknown"),
        Some(n) => {
            if str_eq(n, "String") {
                String::from_str("string")
            } else if number_type(n) {
                String::from_str("num")
            } else {
                to_lowercase(n)
            }
        },
    }
}

fn number_type(n: &str) -> (r: bool)
    ensures
        r == is_number_type(n@),
{
    str_eq(n, "f64") || str_eq(n, "f32") || str_eq(n, "usize") || str_eq(n, "isize") || str_eq(
        n,
        "u64",
    ) || str_eq(n, "i64") || str_eq(n, "u32") || str_eq(n, "i32") || str_eq(n, "u16") || str_eq(
        n,
        "i16",
    ) || str_eq(n, "u8") || str_eq(n, "i8")
}

/// Where the interpolation of a tween field comes from, given the path
/// written in the attribute (if any) and the last segment of the field's
/// type path.
pub fn tween_interp_path(field_type: Option<&str>, path: Option<PathShape>) -> (r: InterpPath)
    ensures
        match path {
            Some(p) => if is_bare_name(p) {
                r matches InterpPath::InTypeModule(m) && m@ == type_module_of(
                    match field_type {
                        Some(n) => Some(n@),
                        None => None,
                    },
                )
            } else {
                r == InterpPath::AsWritten
            },
            None => r == InterpPath::TypeDefault,
        },
{
    match path {
        Some(p) => {
            if !p.leading_colon && p.segments == 1 {
                InterpPath::InTypeModule(type_to_module(field_type))
            } else {
                InterpPath::AsWritten
            }
        },
        None => InterpPath::TypeDefault,
    }
}

/// The name of the generated update method: the one given, else `animate`.
pub fn update_method_name(update: Option<&str>) -> (r: String)
    ensures
        r@ == match update {
            Some(u) => u@,
            None => "animate"@,
        },
{
    match update {
        Some(u) => String::from_str(u),
        None => String::from_str("animate"),
    }
}

/// What the attribute reads from one field: whether it carries `#[spring]`
/// and `#[tween]`, and the mode and duration (milliseconds) it asks for.
#[derive(Debug, Clone, Copy, PartialEq, Eq, Structural)]
pub struct FieldAttrs {
    pub has_spring: bool,
    pub has_tween: bool,
    pub mode: Option<AnimMode>,
    pub duration: Option<u64>,
}

/// The kind of item the attribute is placed on.
#[derive(Debug, Clone, Copy, PartialEq, Eq, Structural)]
pub enum DataShape {
    /// A struct with named fields.
    NamedStruct,
    /// A struct with tuple fields or no fields.
    OtherStruct,
    /// An enum or a union.
    NotStruct,
}

/// What becomes of one field: left as it is, or wrapped in a tween or a
/// spring whose mode marker type is `mode` (a tween also gets its duration in
/// milliseconds).
#[derive(Debug, Clone, Copy)]
pub enum FieldPlan {
    Plain,
    Tween { mode: &'static str, duration: u64 },
    Spring { mode: &'static str },
}

/// The field carries both `#[spring]` and `#[tween]`.
pub open spec fn conflicting(f: FieldAttrs) -> bool {
    f.has_spring && f.has_tween
}

/// `p` is what the attribute makes of a field with attributes `f`.
pub open spec fn plans_field(f: FieldAttrs, p: FieldPlan) -> bool {
    match anim_type_of(f.has_spring, f.has_tween) {
        None => p is Plain,
        Some(AnimType::Tween) => p matches FieldPlan::Tween { mode, duration } && mode@
            == mode_type_name(effective_mode(f.mode)) && duration == match f.duration {
            Some(d) => d,
            None => 0,
        },
        Some(AnimType::Spring) => p matches FieldPlan::Spring { mode } && mode@ == mode_type_name(
            effective_mode(f.mode),
        ),
    }
}

/// Reading back the attribute word of a mode gives the same mode.
pub proof fn lemma_mode_word_round_trip(m: AnimMode)
    ensures
        mode_of_word(mode_word(m)) == Some(m),
        mode_type_of_word(mode_word(m)) == mode_type_name(m),
{
    reveal_strlit("once");
    reveal_strlit("cycle");
    reveal_strlit("alternate");
    assert("once"@.len() == 4 && "cycle"@.len() == 5 && "alternate"@.len() == 9);
}

/// What the attribute makes of one field, or the error for it.
pub fn plan_field(index: usize, f: FieldAttrs) -> (r: Result<FieldPlan, AttrError>)
    ensures
        conflicting(f) ==> r == Err::<FieldPlan, AttrError>(AttrError::BothSpringAndTween(index)),
        !conflicting(f) ==> (r matches Ok(p) && plans_field(f, p)),
{
    let anim_type = field_anim_type(index, f.has_spring, f.has_tween)?;
    match field_mode(f.mode, anim_type) {
        None => Ok(FieldPlan::Plain),
        Some(word) => {
            proof {
                lemma_mode_word_round_trip(effective_mode(f.mode));
            }
            match anim_type {
                Some(AnimType::Tween) => {
                    let duration = match f.duration {
                        Some(d) => d,
                        None => 0,
                    };
                    Ok(FieldPlan::Tween { mode: tween_mode_ident(word), duration })
                },
                Some(AnimType::Spring) => Ok(FieldPlan::Spring { mode: spring_mode_ident(word) }),
                None => Ok(FieldPlan::Plain),
            }
        },
    }
}

/// What the attribute makes of each field of the item it is placed on: an
/// error for an item that is not a struct with named fields, else an error
/// for the first field that carries both `#[spring]` and `#[tween]`, else one
/// plan per field.
pub fn plan_struct(shape: DataShape, fields: &Vec<FieldAttrs>) -> (r: Result<Vec<FieldPlan>, AttrError>)
    ensures
        shape == DataShape::NotStruct ==> r == Err::<Vec<FieldPlan>, AttrError>(AttrError::NotAStruct),
        shape == DataShape::OtherStruct ==> r == Err::<Vec<FieldPlan>, AttrError>(
            AttrError::NotNamedFields,
        ),
        shape == DataShape::NamedStruct ==> (r is Ok <==> forall|i: int|
            0 <= i < fields@.len() ==> !conflicting(#[trigger] fields@[i])),
        r matches Ok(plans) ==> plans@.len() == fields@.len() && forall|i: int|
            0 <= i < fields@.len() ==> plans_field(#[trigger] fields@[i], plans@[i]),
        shape == DataShape::NamedStruct ==> (r matches Err(e) ==> e matches AttrError::BothSpringAndTween(
            k,
        ) && k < fields@.len() && conflicting(fields@[k as int]) && forall|j: int|
            0 <= j < k ==> !conflicting(#[trigger] fields@[j])),
{
    match shape {
        DataShape::NotStruct => { return Err(AttrError::NotAStruct) },
        DataShape::OtherStruct => { return Err(AttrError::NotNamedFields) },
        DataShape::NamedStruct => {},
    }
    let mut plans: Vec<FieldPlan> = Vec::new();
    let mut i: usize = 0;
    while i < fields.len()
        invariant
            shape == DataShape::NamedStruct,
            i <= fields@.len(),
            plans@.len() == i,
            forall|j: int| 0 <= j < i ==> !conflicting(#[trigger] fields@[j]),
            forall|j: int| 0 <= j < i ==> plans_field(#[trigger] fields@[j], plans@[j]),
        decreases fields@.len() - i,
    {
        let p = plan_field(i, fields[i]);
        match p {
            Ok(p) => plans.push(p),
            Err(e) => {
                return Err(e);
            },
        }
        i = i + 1;
    }
    Ok(plans)
}

/// Each primitive number type keeps its interpolations in the `num`
/// module, `String` in `string`, and a type that is not a path in
/// `unknown`.
pub proof fn lemma_type_modules()
    ensures
        type_module_of(Some("f64"@)) == "num"@,
        type_module_of(Some("f32"@)) == "num"@,
        type_module_of(Some("usize"@)) == "num"@,
        type_module_of(Some("isize"@)) == "num"@,
        type_module_of(Some("u64"@)) == "num"@,
        type_module_of(Some("i64"@)) == "num"@,
        type_module_of(Some("u32"@)) == "num"@,
        type_module_of(Some("i32"@)) == "num"@,
        type_module_of(Some("u16"@)) == "num"@,
        type_module_of(Some("i16"@)) == "num"@,
        type_module_of(Some("u8"@)) == "num"@,
        type_module_of(Some("i8"@)) == "num"@,
        type_module_of(Some("String"@)) == "string"@,
        type_module_of(None) == "unknown"@,
{
    reveal_strlit("String");
    reveal_strlit("f64");
    reveal_strlit("f32");
    reveal_strlit("usize");
    reveal_strlit("isize");
    reveal_strlit("u64");
    reveal_strlit("i64");
    reveal_strlit("u32");
    reveal_strlit("i32");
    reveal_strlit("u16");
    reveal_strlit("i16");
    reveal_strlit("u8");
    reveal_strlit("i8");
    assert("String"@.len() == 6);
    assert("usize"@.len() == 5 && "isize"@.len() == 5);
}

/// A field's attributes decide its kind: `#[spring]` alone makes a spring,
/// `#[tween]` alone a tween, neither leaves it plain.
pub proof fn lemma_anim_type_by_attributes(has_spring: bool, has_tween: bool)
    ensures
        has_spring && !has_tween ==> anim_type_of(has_spring, has_tween) == Some(AnimType::Spring),
        !has_spring && has_tween ==> anim_type_of(has_spring, has_tween) == Some(AnimType::Tween),
        !has_spring && !has_tween ==> anim_type_of(has_spring, has_tween) == None::<AnimType>,
{
}

/// A field that asks for no mode is planned in mode `Once`, whether it is a
/// tween or a spring.
pub proof fn lemma_unset_mode_is_once(f: FieldAttrs, p: FieldPlan)
    requires
        f.mode is None,
        plans_field(f, p),
    ensures
        p matches FieldPlan::Tween { mode, .. } ==> mode@ == "Once"@,
        p matches FieldPlan::Spring { mode } ==> mode@ == "Once"@,
{
}

/// A field that asks for a mode gets the marker type of that mode, whether
/// it is a tween or a spring.
pub proof fn lemma_plan_uses_requested_mode(f: FieldAttrs, p: FieldPlan)
    requires
        plans_field(f, p),
    ensures
        f.mode == Some(AnimMode::Once) ==> (p matches FieldPlan::Tween { mode, .. } ==> mode@
            == "Once"@) && (p matches FieldPlan::Spring { mode } ==> mode@ == "Once"@),
        f.mode == Some(AnimMode::Cycle) ==> (p matches FieldPlan::Tween { mode, .. } ==> mode@
            == "Cycle"@) && (p matches FieldPlan::Spring { mode } ==> mode@ == "Cycle"@),
        f.mode == Some(AnimMode::Alternate) ==> (p matches FieldPlan::Tween { mode, .. } ==> mode@
            == "Alternate"@) && (p matches FieldPlan::Spring { mode } ==> mode@ == "Alternate"@),
{
}

/// Tweens and springs that ask for the same mode (or for none) get the same
/// marker type.
pub proof fn lemma_tween_and_spring_share_modes(f1: FieldAttrs, p1: FieldPlan, f2: FieldAttrs, p2: FieldPlan)
    requires
        f1.mode == f2.mode,
        plans_field(f1, p1),
        plans_field(f2, p2),
        p1 is Tween,
        p2 is Spring,
    ensures
        p1->Tween_mode@ == p2->Spring_mode@,
{
}

/// The kind of a field's plan follows its attributes, and a tween's duration
/// is the one asked for, or zero when none was.
pub proof fn lemma_plan_kind_and_duration(f: FieldAttrs, p: FieldPlan)
    requires
        plans_field(f, p),
    ensures
        f.has_spring ==> p is Spring,
        !f.has_spring && f.has_tween ==> p is Tween,
        !f.has_spring && !f.has_tween ==> p is Plain,
        p matches FieldPlan::Tween { duration, .. } ==> duration == match f.duration {
            Some(d) => d,
            None => 0u64,
        },
{
}

/// A bare easing or interpolation name (one segment, no leading `::`) is
/// looked up in the crate; any other path is used as written.
pub proof fn lemma_bare_name(p: PathShape)
    ensures
        is_bare_name(p) <==> (!p.leading_colon && p.segments == 1),
{
}

/// The three mode words, and the marker types they name; any other word
/// names no mode and falls back to `Once`.
pub proof fn lemma_mode_words(s: Seq<char>)
    ensures
        mode_of_word("once"@) == Some(AnimMode::Once),
        mode_of_word("cycle"@) == Some(AnimMode::Cycle),
        mode_of_word("alternate"@) == Some(AnimMode::Alternate),
        mode_type_of_word("once"@) == "Once"@,
        mode_type_of_word("cycle"@) == "Cycle"@,
        mode_type_of_word("alternate"@) == "Alternate"@,
        s != "once"@ && s != "cycle"@ && s != "alternate"@ ==> mode_of_word(s) == None::<AnimMode>
            && mode_type_of_word(s) == "Once"@,
        mode_word(AnimMode::Once) == "once"@,
        mode_word(AnimMode::Cycle) == "cycle"@,
        mode_word(AnimMode::Alternate) == "alternate"@,
{
    reveal_strlit("once");
    reveal_strlit("cycle");
    reveal_strlit("alternate");
    assert("once"@.len() == 4 && "cycle"@.len() == 5 && "alternate"@.len() == 9);
}

/// A type that is neither a primitive number nor `String` keeps its
/// interpolations in the module named by its lowercased name.
pub proof fn lemma_other_type_module(n: Seq<char>)
    requires
        !is_number_type(n),
        n != "String"@,
    ensures
        type_module_of(Some(n)) == lowercase_of(n),
{
}

/// A field conflicts exactly when it carries both `#[spring]` and
/// `#[tween]`.
pub proof fn lemma_conflict_is_both(f: FieldAttrs)
    ensures
        conflicting(f) <==> (f.has_spring && f.has_tween),
{
}

} // verus!
