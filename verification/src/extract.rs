//! The extraction engine: splits an annotated example into the plain example
//! and the matching rules and generators that its annotations declare.
//!
//! An object is an annotation when it has a member `pact:matcher:type`. The
//! annotation stands for the example under its member `value`; its kind and
//! its remaining members make up the rule filed at the path of the
//! annotation. A member `pact:generator:type` declares a generator for the
//! same path, and a member `combine` with the text `OR` asks for the rules of
//! the path to be alternatives.
use crate::json::{
    find_member, json_parse, json_text, lemma_array_view, lemma_member_index, lemma_object_view,
    member, member_index, Json, JsonField, JsonModel,
};
use crate::path::{member_segment, DocPath, PathSegment};
use crate::rules::{
    Category, Generator, GeneratorModel, Generators, GeneratorsModel, MatchingRule,
    MatchingRuleModel, MatchingRules, MatchingRulesModel, RuleLogic,
};
use crate::text::text_is;
use vstd::prelude::*;

verus! {

/// The member that marks an object as an annotation and names its rule.
pub open spec fn matcher_key() -> Seq<char> {
    "pact:matcher:type"@
}

/// The member that names the generator of an annotation.
pub open spec fn generator_key() -> Seq<char> {
    "pact:generator:type"@
}

/// The member that holds the example an annotation stands for.
pub open spec fn value_key() -> Seq<char> {
    "value"@
}

/// The member that says how the rules of a path combine.
pub open spec fn combine_key() -> Seq<char> {
    "combine"@
}

/// Whether a member belongs to the annotation itself rather than to the
/// configuration of its rule.
pub open spec fn is_reserved(name: Seq<char>) -> bool {
    name == matcher_key() || name == generator_key() || name == value_key()
}

/// The members of an annotation that configure its rule or generator, in
/// their order.
pub open spec fn attributes_of(fields: Seq<(Seq<char>, JsonModel)>) -> Seq<(Seq<char>, JsonModel)>
    decreases fields.len(),
{
    if fields.len() == 0 {
        Seq::empty()
    } else if is_reserved(fields.last().0) {
        attributes_of(fields.drop_last())
    } else {
        attributes_of(fields.drop_last()).push(fields.last())
    }
}

/// Whether an object is an annotation.
pub open spec fn is_annotation(fields: Seq<(Seq<char>, JsonModel)>) -> bool {
    member(fields, matcher_key()) is Some
}

/// The rule that an annotation declares.
pub open spec fn rule_of(fields: Seq<(Seq<char>, JsonModel)>) -> MatchingRuleModel {
    MatchingRuleModel {
        kind: Json::plain_text(member(fields, matcher_key()).unwrap()),
        attributes: attributes_of(fields),
    }
}

/// The generator that an annotation declares.
pub open spec fn generator_of(fields: Seq<(Seq<char>, JsonModel)>) -> GeneratorModel {
    GeneratorModel {
        kind: Json::plain_text(member(fields, generator_key()).unwrap()),
        attributes: attributes_of(fields),
    }
}

/// The logic that an annotation asks for: alternatives only on request.
pub open spec fn logic_of(fields: Seq<(Seq<char>, JsonModel)>) -> RuleLogic {
    if member(fields, combine_key()) == Some(JsonModel::String("OR"@)) {
        RuleLogic::Or
    } else {
        RuleLogic::And
    }
}

/// What a walk hands back: the plain example, and the rules and generators
/// as they stand after it.
pub ghost struct Walked<T> {
    pub value: T,
    pub rules: MatchingRulesModel,
    pub generators: GeneratorsModel,
}

/// The rules after the annotation at `path` has been filed.
pub open spec fn rules_recorded(
    fields: Seq<(Seq<char>, JsonModel)>,
    category: Category,
    rules: MatchingRulesModel,
    path: Seq<PathSegment>,
    skip_matchers: bool,
) -> MatchingRulesModel {
    if skip_matchers {
        rules
    } else {
        rules.with_rule(category, path, rule_of(fields), logic_of(fields))
    }
}

/// The generators after the annotation at `path` has been filed.
pub open spec fn generators_recorded(
    fields: Seq<(Seq<char>, JsonModel)>,
    category: Category,
    generators: GeneratorsModel,
    path: Seq<PathSegment>,
    skip_matchers: bool,
) -> GeneratorsModel {
    if !skip_matchers && member(fields, generator_key()) is Some {
        generators.with_generator(category, path, generator_of(fields))
    } else {
        generators
    }
}

/// The path of a member of the object at `path`.
pub open spec fn field_path(path: Seq<PathSegment>, name: Seq<char>, type_matcher: bool) -> Seq<
    PathSegment,
> {
    if type_matcher {
        path.push(PathSegment::Star)
    } else {
        path.push(member_segment(name))
    }
}

/// The path of an item of the array at `path`.
pub open spec fn item_path(path: Seq<PathSegment>, index: int, type_matcher: bool) -> Seq<
    PathSegment,
> {
    if type_matcher {
        path.push(PathSegment::StarIndex)
    } else {
        path.push(PathSegment::Index(index as nat))
    }
}

/// The walk over any value: objects and arrays are walked, scalars stand for
/// themselves.
pub open spec fn walk_value(
    node: JsonModel,
    category: Category,
    rules: MatchingRulesModel,
    generators: GeneratorsModel,
    path: Seq<PathSegment>,
    type_matcher: bool,
    skip_matchers: bool,
) -> Walked<JsonModel>
    decreases node, 0nat,
{
    match node {
        JsonModel::Object(fields) => walk_object(
            fields,
            category,
            rules,
            generators,
            path,
            type_matcher,
            skip_matchers,
        ),
        JsonModel::Array(items) => walk_array(
            items,
            category,
            rules,
            generators,
            path,
            type_matcher,
            skip_matchers,
        ),
        _ => Walked { value: node, rules, generators },
    }
}

/// The walk over an object. An annotation files its rule and generator at
/// `path` (unless `skip_matchers`) and gives way to the walk over its
/// example, whose children hang under wildcards. Any other object keeps its
/// members, each walked at its own path.
pub open spec fn walk_object(
    fields: Seq<(Seq<char>, JsonModel)>,
    category: Category,
    rules: MatchingRulesModel,
    generators: GeneratorsModel,
    path: Seq<PathSegment>,
    type_matcher: bool,
    skip_matchers: bool,
) -> Walked<JsonModel>
    decreases fields, fields.len() + 1,
{
    if is_annotation(fields) {
        let rules1 = rules_recorded(fields, category, rules, path, skip_matchers);
        let generators1 = generators_recorded(fields, category, generators, path, skip_matchers);
        match member_index(fields, value_key()) {
            Some(i) => {
                if 0 <= i < fields.len() {
                    walk_value(fields[i].1, category, rules1, generators1, path, true, skip_matchers)
                } else {
                    Walked { value: JsonModel::Null, rules: rules1, generators: generators1 }
                }
            },
            None => Walked { value: JsonModel::Null, rules: rules1, generators: generators1 },
        }
    } else {
        let w = walk_fields(
            fields,
            fields.len(),
            category,
            rules,
            generators,
            path,
            type_matcher,
            skip_matchers,
        );
        Walked { value: JsonModel::Object(w.value), rules: w.rules, generators: w.generators }
    }
}

/// The walk over the first `n` members of an object that is no annotation.
pub open spec fn walk_fields(
    fields: Seq<(Seq<char>, JsonModel)>,
    n: nat,
    category: Category,
    rules: MatchingRulesModel,
    generators: GeneratorsModel,
    path: Seq<PathSegment>,
    type_matcher: bool,
    skip_matchers: bool,
) -> Walked<Seq<(Seq<char>, JsonModel)>>
    decreases fields, n,
{
    if n == 0 || n > fields.len() {
        Walked { value: Seq::empty(), rules, generators }
    } else {
        let before = walk_fields(
            fields,
            (n - 1) as nat,
            category,
            rules,
            generators,
            path,
            type_matcher,
            skip_matchers,
        );
        let last = fields[n - 1];
        let w = walk_value(
            last.1,
            category,
            before.rules,
            before.generators,
            field_path(path, last.0, type_matcher),
            false,
            skip_matchers,
        );
        Walked {
            value: before.value.push((last.0, w.value)),
            rules: w.rules,
            generators: w.generators,
        }
    }
}

/// The walk over an array: each item is walked at its own path.
pub open spec fn walk_array(
    items: Seq<JsonModel>,
    category: Category,
    rules: MatchingRulesModel,
    generators: GeneratorsModel,
    path: Seq<PathSegment>,
    type_matcher: bool,
    skip_matchers: bool,
) -> Walked<JsonModel>
    decreases items, items.len() + 1,
{
    let w = walk_items(
        items,
        items.len(),
        category,
        rules,
        generators,
        path,
        type_matcher,
        skip_matchers,
    );
    Walked { value: JsonModel::Array(w.value), rules: w.rules, generators: w.generators }
}

/// The walk over the first `n` items of an array.
pub open spec fn walk_items(
    items: Seq<JsonModel>,
    n: nat,
    category: Category,
    rules: MatchingRulesModel,
    generators: GeneratorsModel,
    path: Seq<PathSegment>,
    type_matcher: bool,
    skip_matchers: bool,
) -> Walked<Seq<JsonModel>>
    decreases items, n,
{
    if n == 0 || n > items.len() {
        Walked { value: Seq::empty(), rules, generators }
    } else {
        let before = walk_items(
            items,
            (n - 1) as nat,
            category,
            rules,
            generators,
            path,
            type_matcher,
            skip_matchers,
        );
        let w = walk_value(
            items[n - 1],
            category,
            before.rules,
            before.generators,
            item_path(path, n - 1, type_matcher),
            false,
            skip_matchers,
        );
        Walked { value: before.value.push(w.value), rules: w.rules, generators: w.generators }
    }
}

/// An annotation whose example is a scalar is replaced by that example, and
/// files exactly one rule: the path of the annotation carries one rule more
/// than before, and every other path of the category carries what it did.
pub proof fn lemma_annotation_stripped_and_filed(
    fields: Seq<(Seq<char>, JsonModel)>,
    category: Category,
    rules: MatchingRulesModel,
    generators: GeneratorsModel,
    path: Seq<PathSegment>,
    type_matcher: bool,
    other: Seq<PathSegment>,
)
    requires
        is_annotation(fields),
        member(fields, value_key()) is Some,
        !(member(fields, value_key()).unwrap() is Object),
        !(member(fields, value_key()).unwrap() is Array),
    ensures
        ({
            let w = walk_object(fields, category, rules, generators, path, type_matcher, false);
            &&& w.value == member(fields, value_key()).unwrap()
            &&& w.rules == rules.with_rule(category, path, rule_of(fields), logic_of(fields))
            &&& w.rules.count_at(category, path) == rules.count_at(category, path) + 1
            &&& w.rules.category(category)[path].rules.last() == rule_of(fields)
            &&& other != path ==> w.rules.count_at(category, other) == rules.count_at(
                category,
                other,
            )
        }),
{
    lemma_member_index(fields, value_key());
}

/// A value without annotations comes out of the walk as it went in, and
/// files nothing.
pub proof fn lemma_plain_scalar_unchanged(
    node: JsonModel,
    category: Category,
    rules: MatchingRulesModel,
    generators: GeneratorsModel,
    path: Seq<PathSegment>,
    type_matcher: bool,
    skip_matchers: bool,
)
    requires
        !(node is Object),
        !(node is Array),
    ensures
        walk_value(node, category, rules, generators, path, type_matcher, skip_matchers) == (Walked {
            value: node,
            rules,
            generators,
        }),
{
}

/// What a JSON body comes to: an object or an array is walked from the root
/// in the body category and printed; anything else, unparseable text
/// included, stays as it is.
pub open spec fn body_walk(
    parsed: Option<JsonModel>,
    body: Seq<char>,
    rules: MatchingRulesModel,
    generators: GeneratorsModel,
) -> Walked<Seq<char>> {
    match parsed {
        Some(JsonModel::Object(fields)) => {
            let w = walk_object(
                fields,
                Category::Body,
                rules,
                generators,
                seq![PathSegment::Root],
                false,
                false,
            );
            Walked { value: json_text(w.value), rules: w.rules, generators: w.generators }
        },
        Some(JsonModel::Array(items)) => {
            let w = walk_array(
                items,
                Category::Body,
                rules,
                generators,
                seq![PathSegment::Root],
                false,
                false,
            );
            Walked { value: json_text(w.value), rules: w.rules, generators: w.generators }
        },
        _ => Walked { value: body, rules, generators },
    }
}

/// What a scalar position (a header, a query value, a path) comes to: an
/// annotation is walked at `path` and its example rendered as plain text;
/// anything else, unparseable text included, stays as it is.
pub open spec fn scalar_walk(
    parsed: Option<JsonModel>,
    value: Seq<char>,
    category: Category,
    rules: MatchingRulesModel,
    generators: GeneratorsModel,
    path: Seq<PathSegment>,
) -> Walked<Seq<char>> {
    match parsed {
        Some(JsonModel::Object(fields)) => if is_annotation(fields) {
            let w = walk_object(fields, category, rules, generators, path, false, false);
            Walked { value: Json::plain_text(w.value), rules: w.rules, generators: w.generators }
        } else {
            Walked { value: value, rules, generators }
        },
        _ => Walked { value: value, rules, generators },
    }
}

fn reserved_name(name: &String) -> (r: bool)
    ensures
        r == is_reserved(name@),
{
    text_is(name, "pact:matcher:type") || text_is(name, "pact:generator:type") || text_is(
        name,
        "value",
    )
}

/// The members of an annotation that configure its rule or generator.
pub fn annotation_attributes(fields: &Vec<JsonField>) -> (r: Vec<JsonField>)
    ensures
        r.deep_view() == attributes_of(fields.deep_view()),
{
    let mut out: Vec<JsonField> = Vec::new();
    let mut i: usize = 0;
    assert(fields.deep_view().take(0) =~= Seq::empty());
    assert(out.deep_view() =~= Seq::empty());
    while i < fields.len()
        invariant
            i <= fields.len(),
            out.deep_view() == attributes_of(fields.deep_view().take(i as int)),
        decreases fields.len() - i,
    {
        proof {
            let all = fields.deep_view();
            assert(all.take(i + 1).drop_last() =~= all.take(i as int));
            assert(all.take(i + 1).last() == fields@[i as int]@);
        }
        if !reserved_name(&fields[i].name) {
            let ghost before = out.deep_view();
            out.push(fields[i].clone());
            assert(out.deep_view() =~= before.push(fields@[i as int]@));
        }
        i += 1;
    }
    assert(fields.deep_view().take(i as int) =~= fields.deep_view());
    out
}

/// The logic that an annotation asks for.
pub fn annotation_logic(fields: &Vec<JsonField>) -> (r: RuleLogic)
    ensures
        r == logic_of(fields.deep_view()),
{
    proof {
        lemma_member_index(fields.deep_view(), combine_key());
    }
    match find_member(fields, "combine") {
        Some(i) => {
            assert(fields.deep_view()[i as int].1 == fields@[i as int].value@);
            match &fields[i].value {
                Json::String(s) => {
                    if text_is(s, "OR") {
                        RuleLogic::Or
                    } else {
                        RuleLogic::And
                    }
                },
                _ => RuleLogic::And,
            }
        },
        None => RuleLogic::And,
    }
}

/// Files what an annotation declares at `path`: its rule, and its generator
/// if it declares one.
pub fn record_annotation(
    fields: &Vec<JsonField>,
    category: Category,
    rules: &mut MatchingRules,
    generators: &mut Generators,
    path: &DocPath,
)
    requires
        is_annotation(fields.deep_view()),
    ensures
        final(rules)@ == rules_recorded(fields.deep_view(), category, old(rules)@, path@, false),
        final(generators)@ == generators_recorded(
            fields.deep_view(),
            category,
            old(generators)@,
            path@,
            false,
        ),
{
    let ghost all = fields.deep_view();
    proof {
        lemma_member_index(all, matcher_key());
        lemma_member_index(all, generator_key());
    }
    match find_member(fields, "pact:matcher:type") {
        Some(mi) => {
            assert(all[mi as int].1 == fields@[mi as int].value@);
            let rule = MatchingRule {
                kind: fields[mi].value.to_plain_text(),
                attributes: annotation_attributes(fields),
            };
            let logic = annotation_logic(fields);
            rules.add_rule(category, path.clone(), rule, logic);
        },
        None => {},
    }
    match find_member(fields, "pact:generator:type") {
        Some(gi) => {
            assert(all[gi as int].1 == fields@[gi as int].value@);
            let generator = Generator {
                kind: fields[gi].value.to_plain_text(),
                attributes: annotation_attributes(fields),
            };
            generators.add_generator(category, path.clone(), generator);
        },
        None => {},
    }
}

/// Walks any value: objects and arrays are processed, scalars are copied.
pub fn process_value(
    node: &Json,
    category: Category,
    rules: &mut MatchingRules,
    generators: &mut Generators,
    path: DocPath,
    type_matcher: bool,
    skip_matchers: bool,
) -> (r: Json)
    ensures
        ({
            let w = walk_value(
                node@,
                category,
                old(rules)@,
                old(generators)@,
                path@,
                type_matcher,
                skip_matchers,
            );
            &&& r@ == w.value
            &&& final(rules)@ == w.rules
            &&& final(generators)@ == w.generators
        }),
    decreases node,
{
    match node {
        Json::Object(fields) => {
            proof {
                lemma_object_view(*fields);
            }
            process_object(fields, category, rules, generators, path, type_matcher, skip_matchers)
        },
        Json::Array(items) => {
            proof {
                lemma_array_view(*items);
            }
            process_array(items, category, rules, generators, path, type_matcher, skip_matchers)
        },
        _ => node.clone(),
    }
}

/// Walks the members of an object.
///
/// An annotation is replaced by its example. Unless `skip_matchers` is set,
/// its rule, and its generator if it declares one, are filed at `path` in
/// `category`. The example is walked in turn, its children under wildcards.
/// An annotation without an example gives `null`.
///
/// Any other object keeps its members in their order, each walked at the path
/// of the member: `path` extended by the member's name, or by the wildcard
/// when `type_matcher` is set.
pub fn process_object(
    fields: &Vec<JsonField>,
    category: Category,
    rules: &mut MatchingRules,
    generators: &mut Generators,
    path: DocPath,
    type_matcher: bool,
    skip_matchers: bool,
) -> (r: Json)
    ensures
        ({
            let w = walk_object(
                fields.deep_view(),
                category,
                old(rules)@,
                old(generators)@,
                path@,
                type_matcher,
                skip_matchers,
            );
            &&& r@ == w.value
            &&& final(rules)@ == w.rules
            &&& final(generators)@ == w.generators
        }),
    decreases fields,
{
    let ghost all = fields.deep_view();
    let ghost rules0 = rules@;
    let ghost generators0 = generators@;
    proof {
        lemma_member_index(all, matcher_key());
        lemma_member_index(all, generator_key());
        lemma_member_index(all, value_key());
    }
    match find_member(fields, "pact:matcher:type") {
        Some(mi) => {
            assert(all[mi as int].1 == fields@[mi as int].value@);
            if !skip_matchers {
                record_annotation(fields, category, rules, generators, &path);
            }
            match find_member(fields, "value") {
                Some(vi) => {
                    assert(all[vi as int].1 == fields@[vi as int].value@);
                    assert(decreases_to!(*fields => fields[vi as int]));
                    process_value(
                        &fields[vi].value,
                        category,
                        rules,
                        generators,
                        path,
                        true,
                        skip_matchers,
                    )
                },
                None => Json::Null,
            }
        },
        None => {
            let mut out: Vec<JsonField> = Vec::new();
            let mut i: usize = 0;
            assert(out.deep_view() =~= Seq::empty());
            while i < fields.len()
                invariant
                    i <= fields.len(),
                    all == fields.deep_view(),
                    ({
                        let w = walk_fields(
                            all,
                            i as nat,
                            category,
                            rules0,
                            generators0,
                            path@,
                            type_matcher,
                            skip_matchers,
                        );
                        &&& out.deep_view() == w.value
                        &&& rules@ == w.rules
                        &&& generators@ == w.generators
                    }),
                decreases fields.len() - i,
            {
                let field = &fields[i];
                assert(all[i as int] == (field.name@, field.value@));
                let member_path = if type_matcher {
                    let mut p = path.clone();
                    p.push_star();
                    p
                } else {
                    path.join(field.name.as_str())
                };
                assert(decreases_to!(*fields => fields[i as int]));
                let value = process_value(
                    &field.value,
                    category,
                    rules,
                    generators,
                    member_path,
                    false,
                    skip_matchers,
                );
                let ghost before = out.deep_view();
                out.push(JsonField { name: field.name.clone(), value });
                assert(out.deep_view() =~= before.push((field.name@, value@)));
                i += 1;
            }
            proof {
                lemma_object_view(out);
            }
            Json::Object(out)
        },
    }
}

/// Walks the items of an array, in their order, each at the path of the
/// item: `path` extended by the item's position, or by the wildcard when
/// `type_matcher` is set.
pub fn process_array(
    items: &Vec<Json>,
    category: Category,
    rules: &mut MatchingRules,
    generators: &mut Generators,
    path: DocPath,
    type_matcher: bool,
    skip_matchers: bool,
) -> (r: Json)
    ensures
        ({
            let w = walk_array(
                items.deep_view(),
                category,
                old(rules)@,
                old(generators)@,
                path@,
                type_matcher,
                skip_matchers,
            );
            &&& r@ == w.value
            &&& final(rules)@ == w.rules
            &&& final(generators)@ == w.generators
        }),
    decreases items,
{
    let ghost all = items.deep_view();
    let ghost rules0 = rules@;
    let ghost generators0 = generators@;
    let mut out: Vec<Json> = Vec::new();
    let mut i: usize = 0;
    assert(out.deep_view() =~= Seq::empty());
    while i < items.len()
        invariant
            i <= items.len(),
            all == items.deep_view(),
            ({
                let w = walk_items(
                    all,
                    i as nat,
                    category,
                    rules0,
                    generators0,
                    path@,
                    type_matcher,
                    skip_matchers,
                );
                &&& out.deep_view() == w.value
                &&& rules@ == w.rules
                &&& generators@ == w.generators
            }),
        decreases items.len() - i,
    {
        assert(all[i as int] == items@[i as int]@);
        let mut place = path.clone();
        if type_matcher {
            place.push_star_index();
        } else {
            place.push_index(i);
        }
        assert(decreases_to!(*items => items[i as int]));
        let value = process_value(
            &items[i],
            category,
            rules,
            generators,
            place,
            false,
            skip_matchers,
        );
        let ghost before = out.deep_view();
        out.push(value);
        assert(out.deep_view() =~= before.push(value@));
        i += 1;
    }
    proof {
        lemma_array_view(out);
    }
    Json::Array(out)
}

/// Processes a body whose text has been parsed already: `parsed` is the
/// outcome of parsing `body`, `None` where it is no JSON.
pub fn process_parsed_json(
    body: &str,
    parsed: &Option<Json>,
    rules: &mut MatchingRules,
    generators: &mut Generators,
) -> (r: String)
    ensures
        ({
            let w = body_walk(parsed.deep_view(), body@, old(rules)@, old(generators)@);
            &&& r@ == w.value
            &&& final(rules)@ == w.rules
            &&& final(generators)@ == w.generators
        }),
{
    match parsed {
        Some(Json::Object(fields)) => {
            proof {
                lemma_object_view(*fields);
            }
            process_object(
                fields,
                Category::Body,
                rules,
                generators,
                DocPath::root(),
                false,
                false,
            ).to_text()
        },
        Some(Json::Array(items)) => {
            proof {
                lemma_array_view(*items);
            }
            process_array(
                items,
                Category::Body,
                rules,
                generators,
                DocPath::root(),
                false,
                false,
            ).to_text()
        },
        _ => body.to_owned(),
    }
}

/// Processes a JSON body with embedded annotations: gives the text of the
/// plain example and files the declared rules and generators in the body
/// category. A body that is no JSON object or array is handed back as it is.
pub fn process_json(body: &str, rules: &mut MatchingRules, generators: &mut Generators) -> (r:
    String)
    ensures
        ({
            let w = body_walk(json_parse(body@), body@, old(rules)@, old(generators)@);
            &&& r@ == w.value
            &&& final(rules)@ == w.rules
            &&& final(generators)@ == w.generators
        }),
{
    let parsed = Json::parse(body);
    process_parsed_json(body, &parsed, rules, generators)
}

/// Processes a scalar whose text has been parsed already: `parsed` is the
/// outcome of parsing `value`, `None` where it is no JSON.
pub fn from_parsed_integration_json(
    rules: &mut MatchingRules,
    generators: &mut Generators,
    value: &str,
    parsed: &Option<Json>,
    path: DocPath,
    category: Category,
) -> (r: String)
    ensures
        ({
            let w = scalar_walk(
                parsed.deep_view(),
                value@,
                category,
                old(rules)@,
                old(generators)@,
                path@,
            );
            &&& r@ == w.value
            &&& final(rules)@ == w.rules
            &&& final(generators)@ == w.generators
        }),
{
    match parsed {
        Some(Json::Object(fields)) => {
            proof {
                lemma_object_view(*fields);
                lemma_member_index(fields.deep_view(), matcher_key());
            }
            if find_member(fields, "pact:matcher:type").is_some() {
                process_object(
                    fields,
                    category,
                    rules,
                    generators,
                    path,
                    false,
                    false,
                ).to_plain_text()
            } else {
                value.to_owned()
            }
        },
        _ => value.to_owned(),
    }
}

/// Takes the example out of a header value, a query value or a path that may
/// be written as an annotation, and files what the annotation declares at
/// `path` in `category`. Text that is no annotation is the example itself.
pub fn from_integration_json(
    rules: &mut MatchingRules,
    generators: &mut Generators,
    value: &str,
    path: DocPath,
    category: Category,
) -> (r: String)
    ensures
        ({
            let w = scalar_walk(
                json_parse(value@),
                value@,
                category,
                old(rules)@,
                old(generators)@,
                path@,
            );
            &&& r@ == w.value
            &&& final(rules)@ == w.rules
            &&& final(generators)@ == w.generators
        }),
{
    let parsed = Json::parse(value);
    from_parsed_integration_json(rules, generators, value, &parsed, path, category)
}

} // verus!
