//! Matching rules and generators, filed by category and structural path.
//!
//! A path may carry several matching rules, combined by the logic that the
//! first of them was filed with; it carries at most one generator per
//! category, because generators are kept in a map from paths.
use crate::dict::{lemma_entries_map_update, Dict};
use crate::json::{JsonField, JsonModel};
use crate::path::{DocPath, PathSegment};
use vstd::prelude::*;

verus! {

/// The part of an interaction that a rule or a generator applies to.
#[derive(Clone, Copy, Debug, PartialEq, Eq, Structural)]
pub enum Category {
    Body,
    Header,
    Query,
    Path,
    Metadata,
}

/// How the rules filed under one path combine.
#[derive(Clone, Copy, Debug, PartialEq, Eq, Structural)]
pub enum RuleLogic {
    And,
    Or,
}

/// A matching rule as an annotation declares it: the kind of comparison and
/// the attributes that configure it.
#[derive(Debug)]
pub struct MatchingRule {
    pub kind: String,
    pub attributes: Vec<JsonField>,
}

/// The model of a [`MatchingRule`].
pub ghost struct MatchingRuleModel {
    pub kind: Seq<char>,
    pub attributes: Seq<(Seq<char>, JsonModel)>,
}

impl View for MatchingRule {
    type V = MatchingRuleModel;

    open spec fn view(&self) -> MatchingRuleModel {
        MatchingRuleModel { kind: self.kind@, attributes: self.attributes.deep_view() }
    }
}

impl DeepView for MatchingRule {
    type V = MatchingRuleModel;

    open spec fn deep_view(&self) -> MatchingRuleModel {
        self@
    }
}

/// A generator as an annotation declares it: the kind of value to produce and
/// the attributes that configure it.
#[derive(Debug)]
pub struct Generator {
    pub kind: String,
    pub attributes: Vec<JsonField>,
}

/// The model of a [`Generator`].
pub ghost struct GeneratorModel {
    pub kind: Seq<char>,
    pub attributes: Seq<(Seq<char>, JsonModel)>,
}

impl View for Generator {
    type V = GeneratorModel;

    open spec fn view(&self) -> GeneratorModel {
        GeneratorModel { kind: self.kind@, attributes: self.attributes.deep_view() }
    }
}

impl DeepView for Generator {
    type V = GeneratorModel;

    open spec fn deep_view(&self) -> GeneratorModel {
        self@
    }
}

/// The rules filed under one path.
#[derive(Debug)]
pub struct RuleList {
    pub rules: Vec<MatchingRule>,
    pub rule_logic: RuleLogic,
}

/// The model of a [`RuleList`].
pub ghost struct RuleListModel {
    pub rules: Seq<MatchingRuleModel>,
    pub rule_logic: RuleLogic,
}

impl View for RuleList {
    type V = RuleListModel;

    open spec fn view(&self) -> RuleListModel {
        RuleListModel { rules: self.rules.deep_view(), rule_logic: self.rule_logic }
    }
}

impl DeepView for RuleList {
    type V = RuleListModel;

    open spec fn deep_view(&self) -> RuleListModel {
        self@
    }
}

/// The rules of one category, by path.
pub type RuleMap = Map<Seq<PathSegment>, RuleListModel>;

/// The generators of one category, by path.
pub type GeneratorMap = Map<Seq<PathSegment>, GeneratorModel>;

/// The rule map after `rule` has been filed under `path`: it joins the rules
/// already there, or starts a list that combines by `logic`.
pub open spec fn rule_added(
    rules: RuleMap,
    path: Seq<PathSegment>,
    rule: MatchingRuleModel,
    logic: RuleLogic,
) -> RuleMap {
    if rules.contains_key(path) {
        rules.insert(
            path,
            RuleListModel { rules: rules[path].rules.push(rule), rule_logic: rules[path].rule_logic },
        )
    } else {
        rules.insert(path, RuleListModel { rules: seq![rule], rule_logic: logic })
    }
}

/// Files `rule` under `path` in one category's rules.
pub fn add_rule_at(
    rules: &mut Dict<DocPath, RuleList>,
    path: DocPath,
    rule: MatchingRule,
    logic: RuleLogic,
)
    ensures
        final(rules)@ == rule_added(old(rules)@, path@, rule@, logic),
{
    let ghost before = rules.entries.deep_view();
    match rules.position(&path) {
        Some(i) => {
            let ghost list = rules.entries@[i as int].1@;
            rules.entries[i].1.rules.push(rule);
            proof {
                let grown = RuleListModel {
                    rules: list.rules.push(rule@),
                    rule_logic: list.rule_logic,
                };
                assert(rules.entries@[i as int].1@.rules =~= grown.rules);
                lemma_entries_map_update(before, i as int, grown);
                assert(rules.entries.deep_view() =~= before.update(
                    i as int,
                    (before[i as int].0, grown),
                ));
            }
        },
        None => {
            let mut list: Vec<MatchingRule> = Vec::new();
            list.push(rule);
            let fresh = RuleList { rules: list, rule_logic: logic };
            assert(fresh@.rules =~= seq![rule@]);
            rules.insert(path, fresh);
        },
    }
}

/// The matching rules of one half of an interaction, by category.
#[derive(Debug)]
pub struct MatchingRules {
    pub body: Dict<DocPath, RuleList>,
    pub header: Dict<DocPath, RuleList>,
    pub query: Dict<DocPath, RuleList>,
    pub path: Dict<DocPath, RuleList>,
    pub metadata: Dict<DocPath, RuleList>,
}

/// The model of [`MatchingRules`].
pub ghost struct MatchingRulesModel {
    pub body: RuleMap,
    pub header: RuleMap,
    pub query: RuleMap,
    pub path: RuleMap,
    pub metadata: RuleMap,
}

impl MatchingRulesModel {
    /// No rule in any category.
    pub open spec fn empty() -> MatchingRulesModel {
        MatchingRulesModel {
            body: Map::empty(),
            header: Map::empty(),
            query: Map::empty(),
            path: Map::empty(),
            metadata: Map::empty(),
        }
    }

    /// The rules of one category.
    pub open spec fn category(self, category: Category) -> RuleMap {
        match category {
            Category::Body => self.body,
            Category::Header => self.header,
            Category::Query => self.query,
            Category::Path => self.path,
            Category::Metadata => self.metadata,
        }
    }

    /// The same rules with one category replaced.
    pub open spec fn with_category(self, category: Category, rules: RuleMap) -> MatchingRulesModel {
        match category {
            Category::Body => MatchingRulesModel { body: rules, ..self },
            Category::Header => MatchingRulesModel { header: rules, ..self },
            Category::Query => MatchingRulesModel { query: rules, ..self },
            Category::Path => MatchingRulesModel { path: rules, ..self },
            Category::Metadata => MatchingRulesModel { metadata: rules, ..self },
        }
    }

    /// The rules after `rule` has been filed under `path` in `category`.
    pub open spec fn with_rule(
        self,
        category: Category,
        path: Seq<PathSegment>,
        rule: MatchingRuleModel,
        logic: RuleLogic,
    ) -> MatchingRulesModel {
        self.with_category(category, rule_added(self.category(category), path, rule, logic))
    }

    /// How many rules are filed under `path` in `category`.
    pub open spec fn count_at(self, category: Category, path: Seq<PathSegment>) -> nat {
        if self.category(category).contains_key(path) {
            self.category(category)[path].rules.len()
        } else {
            0
        }
    }
}

impl View for MatchingRules {
    type V = MatchingRulesModel;

    open spec fn view(&self) -> MatchingRulesModel {
        MatchingRulesModel {
            body: self.body@,
            header: self.header@,
            query: self.query@,
            path: self.path@,
            metadata: self.metadata@,
        }
    }
}

impl DeepView for MatchingRules {
    type V = MatchingRulesModel;

    open spec fn deep_view(&self) -> MatchingRulesModel {
        self@
    }
}

impl MatchingRules {
    /// No rule in any category.
    pub fn new() -> (r: MatchingRules)
        ensures
            r@ == MatchingRulesModel::empty(),
    {
        MatchingRules {
            body: Dict::new(),
            header: Dict::new(),
            query: Dict::new(),
            path: Dict::new(),
            metadata: Dict::new(),
        }
    }

    /// The rules of one category.
    pub fn category(&self, category: Category) -> (r: &Dict<DocPath, RuleList>)
        ensures
            r@ == self@.category(category),
    {
        match category {
            Category::Body => &self.body,
            Category::Header => &self.header,
            Category::Query => &self.query,
            Category::Path => &self.path,
            Category::Metadata => &self.metadata,
        }
    }

    /// Files `rule` under `path` in `category`. A path that has rules already
    /// keeps the logic it was first given.
    pub fn add_rule(
        &mut self,
        category: Category,
        path: DocPath,
        rule: MatchingRule,
        logic: RuleLogic,
    )
        ensures
            final(self)@ == old(self)@.with_rule(category, path@, rule@, logic),
    {
        match category {
            Category::Body => add_rule_at(&mut self.body, path, rule, logic),
            Category::Header => add_rule_at(&mut self.header, path, rule, logic),
            Category::Query => add_rule_at(&mut self.query, path, rule, logic),
            Category::Path => add_rule_at(&mut self.path, path, rule, logic),
            Category::Metadata => add_rule_at(&mut self.metadata, path, rule, logic),
        }
    }

    /// How many rules are filed under `path` in `category`.
    pub fn count_at(&self, category: Category, path: &DocPath) -> (n: usize)
        ensures
            n == self@.count_at(category, path@),
    {
        match self.category(category).get(path) {
            Some(list) => list.rules.len(),
            None => 0,
        }
    }
}

/// The generators of one half of an interaction, by category.
#[derive(Debug)]
pub struct Generators {
    pub body: Dict<DocPath, Generator>,
    pub header: Dict<DocPath, Generator>,
    pub query: Dict<DocPath, Generator>,
    pub path: Dict<DocPath, Generator>,
    pub metadata: Dict<DocPath, Generator>,
}

/// The model of [`Generators`].
pub ghost struct GeneratorsModel {
    pub body: GeneratorMap,
    pub header: GeneratorMap,
    pub query: GeneratorMap,
    pub path: GeneratorMap,
    pub metadata: GeneratorMap,
}

impl GeneratorsModel {
    /// No generator in any category.
    pub open spec fn empty() -> GeneratorsModel {
        GeneratorsModel {
            body: Map::empty(),
            header: Map::empty(),
            query: Map::empty(),
            path: Map::empty(),
            metadata: Map::empty(),
        }
    }

    /// The generators of one category.
    pub open spec fn category(self, category: Category) -> GeneratorMap {
        match category {
            Category::Body => self.body,
            Category::Header => self.header,
            Category::Query => self.query,
            Category::Path => self.path,
            Category::Metadata => self.metadata,
        }
    }

    /// The same generators with one category replaced.
    pub open spec fn with_category(self, category: Category, generators: GeneratorMap) -> GeneratorsModel {
        match category {
            Category::Body => GeneratorsModel { body: generators, ..self },
            Category::Header => GeneratorsModel { header: generators, ..self },
            Category::Query => GeneratorsModel { query: generators, ..self },
            Category::Path => GeneratorsModel { path: generators, ..self },
            Category::Metadata => GeneratorsModel { metadata: generators, ..self },
        }
    }

    /// The generators after `generator` has taken the place at `path` in
    /// `category`.
    pub open spec fn with_generator(
        self,
        category: Category,
        path: Seq<PathSegment>,
        generator: GeneratorModel,
    ) -> GeneratorsModel {
        self.with_category(category, self.category(category).insert(path, generator))
    }
}

/// A path carries at most one generator in a category: a generator that is
/// put at a path is the generator of the path, whatever was there, and the
/// other paths and categories keep theirs.
pub proof fn lemma_one_generator_per_path(
    generators: GeneratorsModel,
    category: Category,
    path: Seq<PathSegment>,
    generator: GeneratorModel,
    other_category: Category,
    other_path: Seq<PathSegment>,
)
    ensures
        generators.with_generator(category, path, generator).category(category).contains_key(path),
        generators.with_generator(category, path, generator).category(category)[path] == generator,
        other_category != category ==> generators.with_generator(
            category,
            path,
            generator,
        ).category(other_category) == generators.category(other_category),
        other_path != path ==> generators.with_generator(category, path, generator).category(
            category,
        ).contains_key(other_path) == generators.category(category).contains_key(other_path),
        other_path != path && generators.category(category).contains_key(other_path)
            ==> generators.with_generator(category, path, generator).category(
            category,
        )[other_path] == generators.category(category)[other_path],
{
}

impl View for Generators {
    type V = GeneratorsModel;

    open spec fn view(&self) -> GeneratorsModel {
        GeneratorsModel {
            body: self.body@,
            header: self.header@,
            query: self.query@,
            path: self.path@,
            metadata: self.metadata@,
        }
    }
}

impl DeepView for Generators {
    type V = GeneratorsModel;

    open spec fn deep_view(&self) -> GeneratorsModel {
        self@
    }
}

impl Generators {
    /// No generator in any category.
    pub fn new() -> (r: Generators)
        ensures
            r@ == GeneratorsModel::empty(),
    {
        Generators {
            body: Dict::new(),
            header: Dict::new(),
            query: Dict::new(),
            path: Dict::new(),
            metadata: Dict::new(),
        }
    }

    /// The generators of one category.
    pub fn category(&self, category: Category) -> (r: &Dict<DocPath, Generator>)
        ensures
            r@ == self@.category(category),
    {
        match category {
            Category::Body => &self.body,
            Category::Header => &self.header,
            Category::Query => &self.query,
            Category::Path => &self.path,
            Category::Metadata => &self.metadata,
        }
    }

    /// Puts `generator` at `path` in `category`, in place of any generator
    /// that was there.
    pub fn add_generator(&mut self, category: Category, path: DocPath, generator: Generator)
        ensures
            final(self)@ == old(self)@.with_generator(category, path@, generator@),
    {
        match category {
            Category::Body => self.body.insert(path, generator),
            Category::Header => self.header.insert(path, generator),
            Category::Query => self.query.insert(path, generator),
            Category::Path => self.path.insert(path, generator),
            Category::Metadata => self.metadata.insert(path, generator),
        }
    }
}

} // verus!
