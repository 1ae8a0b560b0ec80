//! The impls that are written for the enum.

use vstd::prelude::*;
use crate::isomorphism::options::{Options, OptionsView};
use crate::isomorphism::variants::{info_views, VariantInfo, VariantInfoView};
use crate::model::{Subject, SubjectView};
use crate::text::{
    brace, braced, bracket, bracketed, join, join_all, join_first, paren, parenthesized,
    push_word, texts,
};

verus! {

/// The value that a variant converts to for target `k`, if it has one.
///
/// Where the target is an identifier, this is the variant's first value, or
/// else the default of the target type. Where targets are listed, it is the
/// variant's value at `k`.
pub open spec fn into_value(o: OptionsView, info: VariantInfoView, k: int) -> Option<Seq<char>> {
    match o.ty {
        Some(t) => if info.values.len() > 0 {
            Some(info.values[0])
        } else {
            Some(join(seq![t, ":: default ()"@]))
        },
        None => if 0 <= k < info.values.len() {
            Some(info.values[k])
        } else {
            None
        },
    }
}

/// The match arm from a variant to its value for target `k`; nothing for a
/// variant without such a value.
pub open spec fn into_arm(o: OptionsView, info: VariantInfoView, k: int) -> Seq<char> {
    match into_value(o, info, k) {
        Some(value) => join(seq![info.pattern, "=>"@, value, ","@]),
        None => Seq::empty(),
    }
}

/// The value for target `k` that is converted back into a variant, if the
/// variant gives one: its first value where the target is an identifier, its
/// value at `k` where targets are listed.
pub open spec fn from_value(o: OptionsView, info: VariantInfoView, k: int) -> Option<Seq<char>> {
    let at = if o.ty is Some {
        0
    } else {
        k
    };
    if 0 <= at < info.values.len() {
        Some(info.values[at])
    } else {
        None
    }
}

/// The match arm from the value for target `k` to a variant at its default;
/// nothing for a variant without such a value.
pub open spec fn from_arm(o: OptionsView, info: VariantInfoView, k: int) -> Seq<char> {
    match from_value(o, info, k) {
        Some(value) => join(seq![value, "=>"@, info.default, ","@]),
        None => Seq::empty(),
    }
}

/// The match arm from a variant to its title.
pub open spec fn title_arm(info: VariantInfoView) -> Seq<char> {
    join(seq![info.pattern, "=>"@, info.title, ","@])
}

/// The arms of all variants to their values for target `k`.
pub open spec fn into_arms(o: OptionsView, infos: Seq<VariantInfoView>, k: int) -> Seq<char> {
    join(infos.map_values(|i: VariantInfoView| into_arm(o, i, k)))
}

/// The arms from the values for target `k` to the variants.
pub open spec fn from_arms(o: OptionsView, infos: Seq<VariantInfoView>, k: int) -> Seq<char> {
    join(infos.map_values(|i: VariantInfoView| from_arm(o, i, k)))
}

/// The arms of all variants to their titles.
pub open spec fn title_arms(infos: Seq<VariantInfoView>) -> Seq<char> {
    join(infos.map_values(|i: VariantInfoView| title_arm(i)))
}

/// The items of the listed values: the expressions of `list = [..]`, each
/// under `Self`, or else every variant at its default.
pub open spec fn list_items(o: OptionsView, infos: Seq<VariantInfoView>) -> Seq<char> {
    match o.list {
        Some(l) => join(l.map_values(|e: Seq<char>| join(seq!["Self ::"@, e, ","@]))),
        None => join(infos.map_values(|i: VariantInfoView| join(seq![i.default, ","@]))),
    }
}

/// `impl Into<ty>` for the enum, or for a reference to it where `borrowed`.
pub open spec fn into_impl(s: SubjectView, ty: Seq<char>, arms: Seq<char>, borrowed: bool) -> Seq<
    char,
> {
    join(
        seq![
            "impl"@,
            if borrowed {
                s.for_ref_impl
            } else {
                s.for_impl
            },
            "Into <"@,
            ty,
            "> for"@,
            if borrowed {
                "& 'a"@
            } else {
                Seq::empty()
            },
            s.name,
            s.for_type,
            s.where_clause,
            brace(
                join(seq!["fn into (self) ->"@, ty, brace(join(seq!["match self"@, brace(arms)]))]),
            ),
        ],
    )
}

/// `impl From<ty>` for the enum, or `From<&ty>` where `borrowed`; a value
/// without an arm gives the enum's default.
pub open spec fn from_impl(s: SubjectView, ty: Seq<char>, arms: Seq<char>, borrowed: bool) -> Seq<
    char,
> {
    let value_ty = if borrowed {
        join(seq!["& 'a"@, ty])
    } else {
        ty
    };
    join(
        seq![
            "impl"@,
            if borrowed {
                s.for_ref_impl
            } else {
                s.for_impl
            },
            "From <"@,
            value_ty,
            "> for"@,
            s.name,
            s.for_type,
            s.where_clause,
            brace(
                join(
                    seq![
                        "fn from"@,
                        paren(join(seq!["value :"@, value_ty])),
                        "-> Self"@,
                        brace(
                            join(
                                seq![
                                    "# [allow (unreachable_patterns)] match value"@,
                                    brace(join(seq![arms, "_ =>"@, s.name, ":: default ()"@])),
                                ],
                            ),
                        ),
                    ],
                ),
            ),
        ],
    )
}

/// The conversions for target `k`: into it from a reference and from a
/// value, and, where asked for, from it by value and by reference.
pub open spec fn conversions(
    s: SubjectView,
    o: OptionsView,
    infos: Seq<VariantInfoView>,
    k: int,
) -> Seq<char> {
    join(
        seq![
            into_impl(s, o.target(k), into_arms(o, infos, k), true),
            into_impl(s, o.target(k), into_arms(o, infos, k), false),
            if o.has_default {
                from_impl(s, o.target(k), from_arms(o, infos, k), false)
            } else {
                Seq::empty()
            },
            if o.has_default {
                from_impl(s, o.target(k), from_arms(o, infos, k), true)
            } else {
                Seq::empty()
            },
        ],
    )
}

/// The conversions for every target, in order.
pub open spec fn all_conversions(
    s: SubjectView,
    o: OptionsView,
    infos: Seq<VariantInfoView>,
) -> Seq<char> {
    join(Seq::new(o.targets(), |k: int| conversions(s, o, infos, k)))
}

/// `impl Isomorphism` for the enum.
pub open spec fn trait_impl(s: SubjectView, o: OptionsView, infos: Seq<VariantInfoView>) -> Seq<
    char,
> {
    join(
        seq![
            "impl"@,
            s.for_impl,
            "Isomorphism for"@,
            s.name,
            s.for_type,
            s.where_clause,
            brace(
                join(
                    seq![
                        "fn title (& self) -> & str"@,
                        brace(join(seq!["match self"@, brace(title_arms(infos))])),
                        "fn list () -> Vec < Self >"@,
                        brace(join(seq!["vec !"@, bracket(list_items(o, infos))])),
                    ],
                ),
            ),
        ],
    )
}

/// Everything that is generated for the enum.
pub open spec fn generated(s: SubjectView, o: OptionsView, infos: Seq<VariantInfoView>) -> Seq<
    char,
> {
    join(seq![all_conversions(s, o, infos), trait_impl(s, o, infos)])
}

fn write_into_arm(o: &Options, info: &VariantInfo, k: usize) -> (r: String)
    ensures
        r@ == into_arm(o@, info@, k as int),
{
    let mut r = String::new();
    match &o.ty {
        Some(t) => {
            push_word(&mut r, info.pattern.as_str());
            push_word(&mut r, "=>");
            if info.values.len() > 0 {
                push_word(&mut r, info.values[0].as_str());
            } else {
                let mut value = String::new();
                push_word(&mut value, t.as_str());
                push_word(&mut value, ":: default ()");
                push_word(&mut r, value.as_str());
            }
            push_word(&mut r, ",");
        },
        None => {
            if k < info.values.len() {
                push_word(&mut r, info.pattern.as_str());
                push_word(&mut r, "=>");
                push_word(&mut r, info.values[k].as_str());
                push_word(&mut r, ",");
            }
        },
    }
    proof {
        reveal_with_fuel(join_first, 5);
    }
    r
}

fn write_from_arm(o: &Options, info: &VariantInfo, k: usize) -> (r: String)
    ensures
        r@ == from_arm(o@, info@, k as int),
{
    let mut r = String::new();
    let at: usize = if o.ty.is_some() {
        0
    } else {
        k
    };
    if at < info.values.len() {
        push_word(&mut r, info.values[at].as_str());
        push_word(&mut r, "=>");
        push_word(&mut r, info.default.as_str());
        push_word(&mut r, ",");
        proof {
            reveal_with_fuel(join_first, 5);
        }
    }
    r
}

fn write_title_arm(info: &VariantInfo) -> (r: String)
    ensures
        r@ == title_arm(info@),
{
    let mut r = String::new();
    push_word(&mut r, info.pattern.as_str());
    push_word(&mut r, "=>");
    push_word(&mut r, info.title.as_str());
    push_word(&mut r, ",");
    proof {
        reveal_with_fuel(join_first, 5);
    }
    r
}

fn write_into_arms(o: &Options, infos: &Vec<VariantInfo>, k: usize) -> (r: String)
    ensures
        r@ == into_arms(o@, info_views(infos@), k as int),
{
    let mut arms: Vec<String> = Vec::new();
    let mut i: usize = 0;
    while i < infos.len()
        invariant
            i <= infos.len(),
            arms@.len() == i,
            forall|j: int|
                0 <= j < i ==> (#[trigger] arms@[j])@ == into_arm(o@, infos@[j]@, k as int),
        decreases infos.len() - i,
    {
        arms.push(write_into_arm(o, &infos[i], k));
        i += 1;
    }
    assert(texts(arms@) =~= info_views(infos@).map_values(
        |i: VariantInfoView| into_arm(o@, i, k as int),
    ));
    join_all(&arms)
}

fn write_from_arms(o: &Options, infos: &Vec<VariantInfo>, k: usize) -> (r: String)
    ensures
        r@ == from_arms(o@, info_views(infos@), k as int),
{
    let mut arms: Vec<String> = Vec::new();
    let mut i: usize = 0;
    while i < infos.len()
        invariant
            i <= infos.len(),
            arms@.len() == i,
            forall|j: int|
                0 <= j < i ==> (#[trigger] arms@[j])@ == from_arm(o@, infos@[j]@, k as int),
        decreases infos.len() - i,
    {
        arms.push(write_from_arm(o, &infos[i], k));
        i += 1;
    }
    assert(texts(arms@) =~= info_views(infos@).map_values(
        |i: VariantInfoView| from_arm(o@, i, k as int),
    ));
    join_all(&arms)
}

fn write_title_arms(infos: &Vec<VariantInfo>) -> (r: String)
    ensures
        r@ == title_arms(info_views(infos@)),
{
    let mut arms: Vec<String> = Vec::new();
    let mut i: usize = 0;
    while i < infos.len()
        invariant
            i <= infos.len(),
            arms@.len() == i,
            forall|j: int| 0 <= j < i ==> (#[trigger] arms@[j])@ == title_arm(infos@[j]@),
        decreases infos.len() - i,
    {
        arms.push(write_title_arm(&infos[i]));
        i += 1;
    }
    assert(texts(arms@) =~= info_views(infos@).map_values(|i: VariantInfoView| title_arm(i)));
    join_all(&arms)
}

fn write_list_items(o: &Options, infos: &Vec<VariantInfo>) -> (r: String)
    ensures
        r@ == list_items(o@, info_views(infos@)),
{
    let mut items: Vec<String> = Vec::new();
    match &o.list {
        Some(l) => {
            let mut i: usize = 0;
            while i < l.len()
                invariant
                    i <= l.len(),
                    items@.len() == i,
                    forall|j: int|
                        0 <= j < i ==> (#[trigger] items@[j])@ == join(
                            seq!["Self ::"@, l@[j]@, ","@],
                        ),
                decreases l.len() - i,
            {
                let mut item = String::new();
                push_word(&mut item, "Self ::");
                push_word(&mut item, l[i].as_str());
                push_word(&mut item, ",");
                proof {
                    reveal_with_fuel(join_first, 4);
                }
                items.push(item);
                i += 1;
            }
            assert(texts(items@) =~= texts(l@).map_values(
                |e: Seq<char>| join(seq!["Self ::"@, e, ","@]),
            ));
        },
        None => {
            let mut i: usize = 0;
            while i < infos.len()
                invariant
                    i <= infos.len(),
                    items@.len() == i,
                    forall|j: int|
                        0 <= j < i ==> (#[trigger] items@[j])@ == join(
                            seq![infos@[j]@.default, ","@],
                        ),
                decreases infos.len() - i,
            {
                let mut item = String::new();
                push_word(&mut item, infos[i].default.as_str());
                push_word(&mut item, ",");
                proof {
                    reveal_with_fuel(join_first, 3);
                }
                items.push(item);
                i += 1;
            }
            assert(texts(items@) =~= info_views(infos@).map_values(
                |i: VariantInfoView| join(seq![i.default, ","@]),
            ));
        },
    }
    join_all(&items)
}

fn write_into_impl(s: &Subject, ty: &str, arms: &str, borrowed: bool) -> (r: String)
    ensures
        r@ == into_impl(s@, ty@, arms@, borrowed),
{
    let arms_block = braced(arms);
    let mut matching = String::new();
    push_word(&mut matching, "match self");
    push_word(&mut matching, arms_block.as_str());
    let match_block = braced(matching.as_str());
    let mut method = String::new();
    push_word(&mut method, "fn into (self) ->");
    push_word(&mut method, ty);
    push_word(&mut method, match_block.as_str());
    let body = braced(method.as_str());
    let mut r = String::new();
    push_word(&mut r, "impl");
    if borrowed {
        push_word(&mut r, s.for_ref_impl.as_str());
    } else {
        push_word(&mut r, s.for_impl.as_str());
    }
    push_word(&mut r, "Into <");
    push_word(&mut r, ty);
    push_word(&mut r, "> for");
    if borrowed {
        push_word(&mut r, "& 'a");
    }
    push_word(&mut r, s.name.as_str());
    push_word(&mut r, s.for_type.as_str());
    push_word(&mut r, s.where_clause.as_str());
    push_word(&mut r, body.as_str());
    proof {
        reveal_with_fuel(join_first, 11);
    }
    r
}

fn write_from_impl(s: &Subject, ty: &str, arms: &str, borrowed: bool) -> (r: String)
    ensures
        r@ == from_impl(s@, ty@, arms@, borrowed),
{
    let mut value_ty = String::new();
    if borrowed {
        push_word(&mut value_ty, "& 'a");
        push_word(&mut value_ty, ty);
    } else {
        value_ty.append(ty);
        assert(value_ty@ =~= ty@);
    }
    let mut all_arms = String::new();
    push_word(&mut all_arms, arms);
    push_word(&mut all_arms, "_ =>");
    push_word(&mut all_arms, s.name.as_str());
    push_word(&mut all_arms, ":: default ()");
    let arms_block = braced(all_arms.as_str());
    let mut matching = String::new();
    push_word(&mut matching, "# [allow (unreachable_patterns)] match value");
    push_word(&mut matching, arms_block.as_str());
    let match_block = braced(matching.as_str());
    let mut parameter = String::new();
    push_word(&mut parameter, "value :");
    push_word(&mut parameter, value_ty.as_str());
    let parameters = parenthesized(parameter.as_str());
    let mut method = String::new();
    push_word(&mut method, "fn from");
    push_word(&mut method, parameters.as_str());
    push_word(&mut method, "-> Self");
    push_word(&mut method, match_block.as_str());
    let body = braced(method.as_str());
    let mut r = String::new();
    push_word(&mut r, "impl");
    if borrowed {
        push_word(&mut r, s.for_ref_impl.as_str());
    } else {
        push_word(&mut r, s.for_impl.as_str());
    }
    push_word(&mut r, "From <");
    push_word(&mut r, value_ty.as_str());
    push_word(&mut r, "> for");
    push_word(&mut r, s.name.as_str());
    push_word(&mut r, s.for_type.as_str());
    push_word(&mut r, s.where_clause.as_str());
    push_word(&mut r, body.as_str());
    proof {
        reveal_with_fuel(join_first, 10);
    }
    r
}

fn write_conversions(s: &Subject, o: &Options, infos: &Vec<VariantInfo>, k: usize) -> (r: String)
    requires
        k < o@.targets(),
    ensures
        r@ == conversions(s@, o@, info_views(infos@), k as int),
{
    let ty = match &o.ty {
        Some(t) => t.clone(),
        None => o.ty_list[k].clone(),
    };
    assert(ty@ == o@.target(k as int));
    let into = write_into_arms(o, infos, k);
    let mut r = String::new();
    let by_ref = write_into_impl(s, ty.as_str(), into.as_str(), true);
    let by_value = write_into_impl(s, ty.as_str(), into.as_str(), false);
    push_word(&mut r, by_ref.as_str());
    push_word(&mut r, by_value.as_str());
    if o.has_default {
        let from = write_from_arms(o, infos, k);
        let by_value = write_from_impl(s, ty.as_str(), from.as_str(), false);
        let by_ref = write_from_impl(s, ty.as_str(), from.as_str(), true);
        push_word(&mut r, by_value.as_str());
        push_word(&mut r, by_ref.as_str());
    }
    proof {
        reveal_with_fuel(join_first, 5);
    }
    r
}

fn write_trait_impl(s: &Subject, o: &Options, infos: &Vec<VariantInfo>) -> (r: String)
    ensures
        r@ == trait_impl(s@, o@, info_views(infos@)),
{
    let titles = write_title_arms(infos);
    let titles_block = braced(titles.as_str());
    let mut title_match = String::new();
    push_word(&mut title_match, "match self");
    push_word(&mut title_match, titles_block.as_str());
    let title_body = braced(title_match.as_str());
    let items = write_list_items(o, infos);
    let items_block = bracketed(items.as_str());
    let mut list = String::new();
    push_word(&mut list, "vec !");
    push_word(&mut list, items_block.as_str());
    let list_body = braced(list.as_str());
    let mut methods = String::new();
    push_word(&mut methods, "fn title (& self) -> & str");
    push_word(&mut methods, title_body.as_str());
    push_word(&mut methods, "fn list () -> Vec < Self >");
    push_word(&mut methods, list_body.as_str());
    let body = braced(methods.as_str());
    let mut r = String::new();
    push_word(&mut r, "impl");
    push_word(&mut r, s.for_impl.as_str());
    push_word(&mut r, "Isomorphism for");
    push_word(&mut r, s.name.as_str());
    push_word(&mut r, s.for_type.as_str());
    push_word(&mut r, s.where_clause.as_str());
    push_word(&mut r, body.as_str());
    proof {
        reveal_with_fuel(join_first, 8);
    }
    r
}

/// Writes everything that is generated for the enum `s` with the options
/// `o` and the variants `infos`: the conversions for each target type, then
/// the impl of `Isomorphism`.
pub fn write_generated(s: &Subject, o: &Options, infos: &Vec<VariantInfo>) -> (r: String)
    ensures
        r@ == generated(s@, o@, info_views(infos@)),
{
    let count = if o.ty.is_some() {
        1
    } else {
        o.ty_list.len()
    };
    let mut all: Vec<String> = Vec::new();
    let mut k: usize = 0;
    while k < count
        invariant
            k <= count,
            count == o@.targets(),
            all@.len() == k,
            forall|j: int|
                0 <= j < k ==> (#[trigger] all@[j])@ == conversions(s@, o@, info_views(infos@), j),
        decreases count - k,
    {
        all.push(write_conversions(s, o, infos, k));
        k += 1;
    }
    assert(texts(all@) =~= Seq::new(
        o@.targets(),
        |k: int| conversions(s@, o@, info_views(infos@), k),
    ));
    let conversions = join_all(&all);
    let trait_impl = write_trait_impl(s, o, infos);
    let mut r = String::new();
    push_word(&mut r, conversions.as_str());
    push_word(&mut r, trait_impl.as_str());
    proof {
        reveal_with_fuel(join_first, 3);
    }
    r
}

} // verus!
