//! Spec-module and codeintel row types, with their database text encodings.
use vstd::prelude::*;

use crate::text::{ascii_lower, owned, str_eq, string_from_chars, to_ascii_lower};

verus! {

/// Level of a spec in the product hierarchy (`specs.level`).
#[derive(Debug, Clone, Copy, PartialEq, Eq, Structural)]
pub enum SpecLevel {
    Product,
    System,
    Module,
    Component,
    Foundation,
}

impl SpecLevel {
    /// The database text of this value.
    pub open spec fn db_label(self) -> Seq<char> {
        match self {
            SpecLevel::Product => "product"@,
            SpecLevel::System => "system"@,
            SpecLevel::Module => "module"@,
            SpecLevel::Component => "component"@,
            SpecLevel::Foundation => "foundation"@,
        }
    }

    /// The value whose database text is `s`, if any.
    pub open spec fn from_db_label(s: Seq<char>) -> Option<Self> {
        if s == "product"@ {
            Some(SpecLevel::Product)
        } else if s == "system"@ {
            Some(SpecLevel::System)
        } else if s == "module"@ {
            Some(SpecLevel::Module)
        } else if s == "component"@ {
            Some(SpecLevel::Component)
        } else if s == "foundation"@ {
            Some(SpecLevel::Foundation)
        } else {
            None
        }
    }

    pub fn as_db_str(self) -> (r: &'static str)
        ensures
            r@ == self.db_label(),
    {
        match self {
            SpecLevel::Product => "product",
            SpecLevel::System => "system",
            SpecLevel::Module => "module",
            SpecLevel::Component => "component",
            SpecLevel::Foundation => "foundation",
        }
    }

    pub fn from_db_str(value: &str) -> (r: Option<Self>)
        ensures
            r == Self::from_db_label(value@),
    {
        if str_eq(value, "product") {
            Some(SpecLevel::Product)
        } else if str_eq(value, "system") {
            Some(SpecLevel::System)
        } else if str_eq(value, "module") {
            Some(SpecLevel::Module)
        } else if str_eq(value, "component") {
            Some(SpecLevel::Component)
        } else if str_eq(value, "foundation") {
            Some(SpecLevel::Foundation)
        } else {
            None
        }
    }
}

/// Reading back the database text of a `SpecLevel` gives the same value, and only the
/// database text of a value reads back as that value.
pub proof fn lemma_spec_level_db_round_trip(x: SpecLevel, s: Seq<char>)
    ensures
        SpecLevel::from_db_label(x.db_label()) == Some(x),
        SpecLevel::from_db_label(s) == Some(x) ==> s == x.db_label(),
{
    reveal_strlit("product"); reveal_strlit("system"); reveal_strlit("module"); reveal_strlit("component"); reveal_strlit("foundation");
    assert("product"@[0] != "system"@[0]);
    assert("product"@[0] != "module"@[0]);
    assert("product"@[0] != "component"@[0]);
    assert("product"@[0] != "foundation"@[0]);
    assert("system"@[0] != "module"@[0]);
    assert("system"@[0] != "component"@[0]);
    assert("system"@[0] != "foundation"@[0]);
    assert("module"@[0] != "component"@[0]);
    assert("module"@[0] != "foundation"@[0]);
    assert("component"@[0] != "foundation"@[0]);
}

/// Lifecycle status of a spec (`specs.status`).
#[derive(Debug, Clone, Copy, PartialEq, Eq, Structural)]
pub enum SpecStatus {
    Draft,
    Active,
    Deprecated,
    Archived,
}

impl SpecStatus {
    /// The database text of this value.
    pub open spec fn db_label(self) -> Seq<char> {
        match self {
            SpecStatus::Draft => "draft"@,
            SpecStatus::Active => "active"@,
            SpecStatus::Deprecated => "deprecated"@,
            SpecStatus::Archived => "archived"@,
        }
    }

    /// The value whose database text is `s`, if any.
    pub open spec fn from_db_label(s: Seq<char>) -> Option<Self> {
        if s == "draft"@ {
            Some(SpecStatus::Draft)
        } else if s == "active"@ {
            Some(SpecStatus::Active)
        } else if s == "deprecated"@ {
            Some(SpecStatus::Deprecated)
        } else if s == "archived"@ {
            Some(SpecStatus::Archived)
        } else {
            None
        }
    }

    pub fn as_db_str(self) -> (r: &'static str)
        ensures
            r@ == self.db_label(),
    {
        match self {
            SpecStatus::Draft => "draft",
            SpecStatus::Active => "active",
            SpecStatus::Deprecated => "deprecated",
            SpecStatus::Archived => "archived",
        }
    }

    pub fn from_db_str(value: &str) -> (r: Option<Self>)
        ensures
            r == Self::from_db_label(value@),
    {
        if str_eq(value, "draft") {
            Some(SpecStatus::Draft)
        } else if str_eq(value, "active") {
            Some(SpecStatus::Active)
        } else if str_eq(value, "deprecated") {
            Some(SpecStatus::Deprecated)
        } else if str_eq(value, "archived") {
            Some(SpecStatus::Archived)
        } else {
            None
        }
    }
}

/// Reading back the database text of a `SpecStatus` gives the same value, and only the
/// database text of a value reads back as that value.
pub proof fn lemma_spec_status_db_round_trip(x: SpecStatus, s: Seq<char>)
    ensures
        SpecStatus::from_db_label(x.db_label()) == Some(x),
        SpecStatus::from_db_label(s) == Some(x) ==> s == x.db_label(),
{
    reveal_strlit("draft"); reveal_strlit("active"); reveal_strlit("deprecated"); reveal_strlit("archived");
    assert("draft"@[0] != "active"@[0]);
    assert("draft"@[1] != "deprecated"@[1]);
    assert("draft"@[0] != "archived"@[0]);
    assert("active"@[0] != "deprecated"@[0]);
    assert("active"@[1] != "archived"@[1]);
    assert("deprecated"@[0] != "archived"@[0]);
}

/// How an acceptance criterion is reviewed.
#[derive(Debug, Clone, Copy, PartialEq, Eq, Structural)]
pub enum ReviewMode {
    Manual,
    Automated,
    Hybrid,
}

impl ReviewMode {
    /// The database text of this value.
    pub open spec fn db_label(self) -> Seq<char> {
        match self {
            ReviewMode::Manual => "manual"@,
            ReviewMode::Automated => "automated"@,
            ReviewMode::Hybrid => "hybrid"@,
        }
    }

    /// The value whose database text is `s`, if any.
    pub open spec fn from_db_label(s: Seq<char>) -> Option<Self> {
        if s == "manual"@ {
            Some(ReviewMode::Manual)
        } else if s == "automated"@ {
            Some(ReviewMode::Automated)
        } else if s == "hybrid"@ {
            Some(ReviewMode::Hybrid)
        } else {
            None
        }
    }

    pub fn as_db_str(self) -> (r: &'static str)
        ensures
            r@ == self.db_label(),
    {
        match self {
            ReviewMode::Manual => "manual",
            ReviewMode::Automated => "automated",
            ReviewMode::Hybrid => "hybrid",
        }
    }

    pub fn from_db_str(value: &str) -> (r: Option<Self>)
        ensures
            r == Self::from_db_label(value@),
    {
        if str_eq(value, "manual") {
            Some(ReviewMode::Manual)
        } else if str_eq(value, "automated") {
            Some(ReviewMode::Automated)
        } else if str_eq(value, "hybrid") {
            Some(ReviewMode::Hybrid)
        } else {
            None
        }
    }
}

/// Reading back the database text of a `ReviewMode` gives the same value, and only the
/// database text of a value reads back as that value.
pub proof fn lemma_review_mode_db_round_trip(x: ReviewMode, s: Seq<char>)
    ensures
        ReviewMode::from_db_label(x.db_label()) == Some(x),
        ReviewMode::from_db_label(s) == Some(x) ==> s == x.db_label(),
{
    reveal_strlit("manual"); reveal_strlit("automated"); reveal_strlit("hybrid");
    assert("manual"@[0] != "automated"@[0]);
    assert("manual"@[0] != "hybrid"@[0]);
    assert("automated"@[0] != "hybrid"@[0]);
}

/// Risk classification of an acceptance criterion.
#[derive(Debug, Clone, Copy, PartialEq, Eq, Structural)]
pub enum RiskLevel {
    Low,
    Medium,
    High,
    Critical,
}

impl RiskLevel {
    /// The database text of this value.
    pub open spec fn db_label(self) -> Seq<char> {
        match self {
            RiskLevel::Low => "low"@,
            RiskLevel::Medium => "medium"@,
            RiskLevel::High => "high"@,
            RiskLevel::Critical => "critical"@,
        }
    }

    /// The value whose database text is `s`, if any.
    pub open spec fn from_db_label(s: Seq<char>) -> Option<Self> {
        if s == "low"@ {
            Some(RiskLevel::Low)
        } else if s == "medium"@ {
            Some(RiskLevel::Medium)
        } else if s == "high"@ {
            Some(RiskLevel::High)
        } else if s == "critical"@ {
            Some(RiskLevel::Critical)
        } else {
            None
        }
    }

    pub fn as_db_str(self) -> (r: &'static str)
        ensures
            r@ == self.db_label(),
    {
        match self {
            RiskLevel::Low => "low",
            RiskLevel::Medium => "medium",
            RiskLevel::High => "high",
            RiskLevel::Critical => "critical",
        }
    }

    pub fn from_db_str(value: &str) -> (r: Option<Self>)
        ensures
            r == Self::from_db_label(value@),
    {
        if str_eq(value, "low") {
            Some(RiskLevel::Low)
        } else if str_eq(value, "medium") {
            Some(RiskLevel::Medium)
        } else if str_eq(value, "high") {
            Some(RiskLevel::High)
        } else if str_eq(value, "critical") {
            Some(RiskLevel::Critical)
        } else {
            None
        }
    }
}

/// Reading back the database text of a `RiskLevel` gives the same value, and only the
/// database text of a value reads back as that value.
pub proof fn lemma_risk_level_db_round_trip(x: RiskLevel, s: Seq<char>)
    ensures
        RiskLevel::from_db_label(x.db_label()) == Some(x),
        RiskLevel::from_db_label(s) == Some(x) ==> s == x.db_label(),
{
    reveal_strlit("low"); reveal_strlit("medium"); reveal_strlit("high"); reveal_strlit("critical");
    assert("low"@[0] != "medium"@[0]);
    assert("low"@[0] != "high"@[0]);
    assert("low"@[0] != "critical"@[0]);
    assert("medium"@[0] != "high"@[0]);
    assert("medium"@[0] != "critical"@[0]);
    assert("high"@[0] != "critical"@[0]);
}

/// Quality concern tagged on an acceptance criterion.
#[derive(Debug, Clone, Copy, PartialEq, Eq, Structural)]
pub enum ConcernKind {
    Correctness,
    Security,
    Performance,
    Reliability,
    Maintainability,
}

impl ConcernKind {
    /// The database text of this value.
    pub open spec fn db_label(self) -> Seq<char> {
        match self {
            ConcernKind::Correctness => "correctness"@,
            ConcernKind::Security => "security"@,
            ConcernKind::Performance => "performance"@,
            ConcernKind::Reliability => "reliability"@,
            ConcernKind::Maintainability => "maintainability"@,
        }
    }

    /// The value whose database text is `s`, if any.
    pub open spec fn from_db_label(s: Seq<char>) -> Option<Self> {
        if s == "correctness"@ {
            Some(ConcernKind::Correctness)
        } else if s == "security"@ {
            Some(ConcernKind::Security)
        } else if s == "performance"@ {
            Some(ConcernKind::Performance)
        } else if s == "reliability"@ {
            Some(ConcernKind::Reliability)
        } else if s == "maintainability"@ {
            Some(ConcernKind::Maintainability)
        } else {
            None
        }
    }

    pub fn as_db_str(self) -> (r: &'static str)
        ensures
            r@ == self.db_label(),
    {
        match self {
            ConcernKind::Correctness => "correctness",
            ConcernKind::Security => "security",
            ConcernKind::Performance => "performance",
            ConcernKind::Reliability => "reliability",
            ConcernKind::Maintainability => "maintainability",
        }
    }

    pub fn from_db_str(value: &str) -> (r: Option<Self>)
        ensures
            r == Self::from_db_label(value@),
    {
        if str_eq(value, "correctness") {
            Some(ConcernKind::Correctness)
        } else if str_eq(value, "security") {
            Some(ConcernKind::Security)
        } else if str_eq(value, "performance") {
            Some(ConcernKind::Performance)
        } else if str_eq(value, "reliability") {
            Some(ConcernKind::Reliability)
        } else if str_eq(value, "maintainability") {
            Some(ConcernKind::Maintainability)
        } else {
            None
        }
    }
}

/// Reading back the database text of a `ConcernKind` gives the same value, and only the
/// database text of a value reads back as that value.
pub proof fn lemma_concern_kind_db_round_trip(x: ConcernKind, s: Seq<char>)
    ensures
        ConcernKind::from_db_label(x.db_label()) == Some(x),
        ConcernKind::from_db_label(s) == Some(x) ==> s == x.db_label(),
{
    reveal_strlit("correctness"); reveal_strlit("security"); reveal_strlit("performance"); reveal_strlit("reliability"); reveal_strlit("maintainability");
    assert("correctness"@[0] != "security"@[0]);
    assert("correctness"@[0] != "performance"@[0]);
    assert("correctness"@[0] != "reliability"@[0]);
    assert("correctness"@[0] != "maintainability"@[0]);
    assert("security"@[0] != "performance"@[0]);
    assert("security"@[0] != "reliability"@[0]);
    assert("security"@[0] != "maintainability"@[0]);
    assert("performance"@[0] != "reliability"@[0]);
    assert("performance"@[0] != "maintainability"@[0]);
    assert("reliability"@[0] != "maintainability"@[0]);
}

/// Kind of stored code location (`codeintel_code_locations.kind`).
#[derive(Debug, Clone, Copy, PartialEq, Eq, Structural)]
pub enum CodeLocationKind {
    TestFile,
    TestCommand,
}

impl CodeLocationKind {
    /// The database text of this value.
    pub open spec fn db_label(self) -> Seq<char> {
        match self {
            CodeLocationKind::TestFile => "test_file"@,
            CodeLocationKind::TestCommand => "test_command"@,
        }
    }

    /// The value whose database text is `s`, if any.
    pub open spec fn from_db_label(s: Seq<char>) -> Option<Self> {
        if s == "test_file"@ {
            Some(CodeLocationKind::TestFile)
        } else if s == "test_command"@ {
            Some(CodeLocationKind::TestCommand)
        } else {
            None
        }
    }

    pub fn as_db_str(self) -> (r: &'static str)
        ensures
            r@ == self.db_label(),
    {
        match self {
            CodeLocationKind::TestFile => "test_file",
            CodeLocationKind::TestCommand => "test_command",
        }
    }

    pub fn from_db_str(value: &str) -> (r: Option<Self>)
        ensures
            r == Self::from_db_label(value@),
    {
        if str_eq(value, "test_file") {
            Some(CodeLocationKind::TestFile)
        } else if str_eq(value, "test_command") {
            Some(CodeLocationKind::TestCommand)
        } else {
            None
        }
    }
}

/// Reading back the database text of a `CodeLocationKind` gives the same value, and only the
/// database text of a value reads back as that value.
pub proof fn lemma_code_location_kind_db_round_trip(x: CodeLocationKind, s: Seq<char>)
    ensures
        CodeLocationKind::from_db_label(x.db_label()) == Some(x),
        CodeLocationKind::from_db_label(s) == Some(x) ==> s == x.db_label(),
{
    reveal_strlit("test_file"); reveal_strlit("test_command");
    assert("test_file"@[5] != "test_command"@[5]);
}

/// Relation between an acceptance criterion and a code location (`codeintel_ac_links.relation_kind`).
#[derive(Debug, Clone, Copy, PartialEq, Eq, Structural)]
pub enum AcCodeRelationKind {
    VerifiedBy,
    ImplementedBy,
    TouchedBy,
}

impl AcCodeRelationKind {
    /// The database text of this value.
    pub open spec fn db_label(self) -> Seq<char> {
        match self {
            AcCodeRelationKind::VerifiedBy => "verified_by"@,
            AcCodeRelationKind::ImplementedBy => "implemented_by"@,
            AcCodeRelationKind::TouchedBy => "touched_by"@,
        }
    }

    /// The value whose database text is `s`, if any.
    pub open spec fn from_db_label(s: Seq<char>) -> Option<Self> {
        if s == "verified_by"@ {
            Some(AcCodeRelationKind::VerifiedBy)
        } else if s == "implemented_by"@ {
            Some(AcCodeRelationKind::ImplementedBy)
        } else if s == "touched_by"@ {
            Some(AcCodeRelationKind::TouchedBy)
        } else {
            None
        }
    }

    pub fn as_db_str(self) -> (r: &'static str)
        ensures
            r@ == self.db_label(),
    {
        match self {
            AcCodeRelationKind::VerifiedBy => "verified_by",
            AcCodeRelationKind::ImplementedBy => "implemented_by",
            AcCodeRelationKind::TouchedBy => "touched_by",
        }
    }

    pub fn from_db_str(value: &str) -> (r: Option<Self>)
        ensures
            r == Self::from_db_label(value@),
    {
        if str_eq(value, "verified_by") {
            Some(AcCodeRelationKind::VerifiedBy)
        } else if str_eq(value, "implemented_by") {
            Some(AcCodeRelationKind::ImplementedBy)
        } else if str_eq(value, "touched_by") {
            Some(AcCodeRelationKind::TouchedBy)
        } else {
            None
        }
    }
}

/// Reading back the database text of a `AcCodeRelationKind` gives the same value, and only the
/// database text of a value reads back as that value.
pub proof fn lemma_ac_code_relation_kind_db_round_trip(x: AcCodeRelationKind, s: Seq<char>)
    ensures
        AcCodeRelationKind::from_db_label(x.db_label()) == Some(x),
        AcCodeRelationKind::from_db_label(s) == Some(x) ==> s == x.db_label(),
{
    reveal_strlit("verified_by"); reveal_strlit("implemented_by"); reveal_strlit("touched_by");
    assert("verified_by"@[0] != "implemented_by"@[0]);
    assert("verified_by"@[0] != "touched_by"@[0]);
    assert("implemented_by"@[0] != "touched_by"@[0]);
}

/// One character of a slug derived from an id: ASCII-lowercased, `_` becomes `-`.
pub open spec fn slug_char(c: char) -> char {
    if ascii_lower(c) == '_' {
        '-'
    } else {
        ascii_lower(c)
    }
}

/// The slug derived from an id (`slug_from_id`).
pub open spec fn slug_of(id: Seq<char>) -> Seq<char> {
    id.map_values(|c: char| slug_char(c))
}

/// Filesystem-friendly slug from an id: ASCII lowercase, with `_` replaced by `-`.
pub fn slug_from_id(id: &str) -> (r: String)
    ensures
        r@ == slug_of(id@),
{
    let n = id.unicode_len();
    let mut out: Vec<char> = Vec::new();
    let mut i: usize = 0;
    while i < n
        invariant
            n == id@.len(),
            i <= n,
            out@ == slug_of(id@.subrange(0, i as int)),
        decreases n - i,
    {
        let c = to_ascii_lower(id.get_char(i));
        let c2 = if c == '_' {
            '-'
        } else {
            c
        };
        out.push(c2);
        proof {
            assert(slug_of(id@.subrange(0, i + 1)) =~= slug_of(id@.subrange(0, i as int)).push(
                c2,
            ));
        }
        i = i + 1;
    }
    assert(id@.subrange(0, n as int) =~= id@);
    string_from_chars(out.as_slice())
}

/// A copy of a concern list.
pub fn copy_concerns(v: &Vec<ConcernKind>) -> (r: Vec<ConcernKind>)
    ensures
        r@ == v@,
{
    let mut r: Vec<ConcernKind> = Vec::new();
    let mut i: usize = 0;
    while i < v.len()
        invariant
            i <= v@.len(),
            r@ == v@.subrange(0, i as int),
        decreases v@.len() - i,
    {
        r.push(v[i]);
        i = i + 1;
    }
    assert(v@.subrange(0, v@.len() as int) =~= v@);
    r
}

/// A copy of an optional string.
pub fn copy_opt_string(v: &Option<String>) -> (r: Option<String>)
    ensures
        r == *v,
{
    match v {
        Some(s) => Some(s.clone()),
        None => None,
    }
}

#[derive(Debug, PartialEq, Eq)]
pub struct Spec {
    pub id: String,
    pub slug: String,
    pub title: String,
    pub description: String,
    pub level: SpecLevel,
    pub status: SpecStatus,
    pub created_at: String,
    pub updated_at: String,
}

impl Clone for Spec {
    fn clone(&self) -> (r: Self)
        ensures
            r == *self,
    {
        Spec {
            id: self.id.clone(),
            slug: self.slug.clone(),
            title: self.title.clone(),
            description: self.description.clone(),
            level: self.level,
            status: self.status,
            created_at: self.created_at.clone(),
            updated_at: self.updated_at.clone(),
        }
    }
}

impl Spec {
    /// A draft module-level spec with the given id and title; the slug derives from the id.
    pub fn new(id: &str, title: &str) -> (r: Self)
        ensures
            r.id@ == id@,
            r.slug@ == slug_of(id@),
            r.title@ == title@,
            r.description@ == Seq::<char>::empty(),
            r.level == SpecLevel::Module,
            r.status == SpecStatus::Draft,
            r.created_at@ == Seq::<char>::empty(),
            r.updated_at@ == Seq::<char>::empty(),
    {
        Spec {
            slug: slug_from_id(id),
            id: owned(id),
            title: owned(title),
            description: String::new(),
            level: SpecLevel::Module,
            status: SpecStatus::Draft,
            created_at: String::new(),
            updated_at: String::new(),
        }
    }
}

#[derive(Debug, PartialEq, Eq)]
pub struct AcceptanceCriterion {
    pub id: String,
    pub spec_id: String,
    /// Filesystem-oriented segment; by default derived from `id` via [`slug_from_id`].
    pub slug: String,
    pub title: String,
    pub intent: String,
    pub review_mode: ReviewMode,
    pub risk_level: RiskLevel,
    pub concerns: Vec<ConcernKind>,
    pub created_at: String,
    pub updated_at: String,
}

impl Clone for AcceptanceCriterion {
    fn clone(&self) -> (r: Self)
        ensures
            r.id == self.id,
            r.spec_id == self.spec_id,
            r.slug == self.slug,
            r.title == self.title,
            r.intent == self.intent,
            r.review_mode == self.review_mode,
            r.risk_level == self.risk_level,
            r.concerns@ == self.concerns@,
            r.created_at == self.created_at,
            r.updated_at == self.updated_at,
    {
        AcceptanceCriterion {
            id: self.id.clone(),
            spec_id: self.spec_id.clone(),
            slug: self.slug.clone(),
            title: self.title.clone(),
            intent: self.intent.clone(),
            review_mode: self.review_mode,
            risk_level: self.risk_level,
            concerns: copy_concerns(&self.concerns),
            created_at: self.created_at.clone(),
            updated_at: self.updated_at.clone(),
        }
    }
}

impl AcceptanceCriterion {
    /// A manual, medium-risk criterion with no concerns; the slug derives from the id.
    pub fn new(id: &str, spec_id: &str, title: &str) -> (r: Self)
        ensures
            r.id@ == id@,
            r.spec_id@ == spec_id@,
            r.slug@ == slug_of(id@),
            r.title@ == title@,
            r.intent@ == Seq::<char>::empty(),
            r.review_mode == ReviewMode::Manual,
            r.risk_level == RiskLevel::Medium,
            r.concerns@ == Seq::<ConcernKind>::empty(),
            r.created_at@ == Seq::<char>::empty(),
            r.updated_at@ == Seq::<char>::empty(),
    {
        AcceptanceCriterion {
            slug: slug_from_id(id),
            id: owned(id),
            spec_id: owned(spec_id),
            title: owned(title),
            intent: String::new(),
            review_mode: ReviewMode::Manual,
            risk_level: RiskLevel::Medium,
            concerns: Vec::new(),
            created_at: String::new(),
            updated_at: String::new(),
        }
    }
}

#[derive(Debug, PartialEq, Eq)]
pub struct SpecRelation {
    pub id: String,
    pub source_spec_id: String,
    pub target_spec_id: String,
    pub relation_kind: String,
    pub note: String,
}

impl Clone for SpecRelation {
    fn clone(&self) -> (r: Self)
        ensures
            r == *self,
    {
        SpecRelation {
            id: self.id.clone(),
            source_spec_id: self.source_spec_id.clone(),
            target_spec_id: self.target_spec_id.clone(),
            relation_kind: self.relation_kind.clone(),
            note: self.note.clone(),
        }
    }
}

impl SpecRelation {
    pub fn new(
        id: &str,
        source_spec_id: &str,
        target_spec_id: &str,
        relation_kind: &str,
        note: &str,
    ) -> (r: Self)
        ensures
            r.id@ == id@,
            r.source_spec_id@ == source_spec_id@,
            r.target_spec_id@ == target_spec_id@,
            r.relation_kind@ == relation_kind@,
            r.note@ == note@,
    {
        SpecRelation {
            id: owned(id),
            source_spec_id: owned(source_spec_id),
            target_spec_id: owned(target_spec_id),
            relation_kind: owned(relation_kind),
            note: owned(note),
        }
    }
}

/// Full spec-module snapshot: specs, acceptance criteria and relations (no consistency checks).
#[derive(Debug, Clone, PartialEq, Eq)]
pub struct SpecGraph {
    pub specs: Vec<Spec>,
    pub acceptance_criteria: Vec<AcceptanceCriterion>,
    pub spec_relations: Vec<SpecRelation>,
}

impl SpecGraph {
    pub fn new(
        specs: Vec<Spec>,
        acceptance_criteria: Vec<AcceptanceCriterion>,
        spec_relations: Vec<SpecRelation>,
    ) -> (r: Self)
        ensures
            r.specs == specs,
            r.acceptance_criteria == acceptance_criteria,
            r.spec_relations == spec_relations,
    {
        SpecGraph { specs, acceptance_criteria, spec_relations }
    }
}

#[derive(Debug, PartialEq, Eq)]
pub struct CodeLocation {
    pub id: String,
    pub repo_path: String,
    pub file_path: String,
    pub kind: CodeLocationKind,
    pub symbol: Option<String>,
    pub test_command: Option<String>,
    pub created_at: String,
    pub updated_at: String,
}

impl Clone for CodeLocation {
    fn clone(&self) -> (r: Self)
        ensures
            r == *self,
    {
        CodeLocation {
            id: self.id.clone(),
            repo_path: self.repo_path.clone(),
            file_path: self.file_path.clone(),
            kind: self.kind,
            symbol: copy_opt_string(&self.symbol),
            test_command: copy_opt_string(&self.test_command),
            created_at: self.created_at.clone(),
            updated_at: self.updated_at.clone(),
        }
    }
}

impl CodeLocation {
    /// A test-file location with no symbol and no test command.
    pub fn new(id: &str, repo_path: &str, file_path: &str) -> (r: Self)
        ensures
            r.id@ == id@,
            r.repo_path@ == repo_path@,
            r.file_path@ == file_path@,
            r.kind == CodeLocationKind::TestFile,
            r.symbol.is_none(),
            r.test_command.is_none(),
            r.created_at@ == Seq::<char>::empty(),
            r.updated_at@ == Seq::<char>::empty(),
    {
        CodeLocation {
            id: owned(id),
            repo_path: owned(repo_path),
            file_path: owned(file_path),
            kind: CodeLocationKind::TestFile,
            symbol: None,
            test_command: None,
            created_at: String::new(),
            updated_at: String::new(),
        }
    }
}

#[derive(Debug, PartialEq, Eq)]
pub struct AcCodeLink {
    pub id: String,
    pub ac_id: String,
    pub code_location_id: String,
    pub relation_kind: AcCodeRelationKind,
    pub note: String,
    pub created_at: String,
    pub updated_at: String,
}

impl Clone for AcCodeLink {
    fn clone(&self) -> (r: Self)
        ensures
            r == *self,
    {
        AcCodeLink {
            id: self.id.clone(),
            ac_id: self.ac_id.clone(),
            code_location_id: self.code_location_id.clone(),
            relation_kind: self.relation_kind,
            note: self.note.clone(),
            created_at: self.created_at.clone(),
            updated_at: self.updated_at.clone(),
        }
    }
}

impl AcCodeLink {
    /// A link with an empty note and empty timestamps.
    pub fn new(id: &str, ac_id: &str, code_location_id: &str, relation_kind: AcCodeRelationKind) -> (r: Self)
        ensures
            r.id@ == id@,
            r.ac_id@ == ac_id@,
            r.code_location_id@ == code_location_id@,
            r.relation_kind == relation_kind,
            r.note@ == Seq::<char>::empty(),
            r.created_at@ == Seq::<char>::empty(),
            r.updated_at@ == Seq::<char>::empty(),
    {
        AcCodeLink {
            id: owned(id),
            ac_id: owned(ac_id),
            code_location_id: owned(code_location_id),
            relation_kind,
            note: String::new(),
            created_at: String::new(),
            updated_at: String::new(),
        }
    }
}

/// Link row plus its [`CodeLocation`].
#[derive(Debug, Clone, PartialEq, Eq)]
pub struct AcCodeLinkWithLocation {
    pub link: AcCodeLink,
    pub location: CodeLocation,
}

} // verus!
