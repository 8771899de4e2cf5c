use crate::text::str_eq;
use vstd::prelude::*;

verus! {

/// The part that an agent plays. The twelve named roles are fixed; every
/// other name is a `Custom` role.
#[derive(Debug, PartialEq, Eq)]
pub enum AgentRole {
    DocCoordinator,
    DocContentSyncer,
    DocusaurusExpert,
    UiDesignExpert,
    CssExpert,
    DocRunner,
    DocVerifier,
    FixPlanner,
    Implementer,
    RefactoringGuru,
    CodeReviewer,
    GitCommitter,
    Custom(String),
}

/// Is `name` the name of one of the twelve fixed roles?
pub open spec fn is_fixed_role_name(name: Seq<char>) -> bool {
    ||| name == "DocCoordinator"@
    ||| name == "DocContentSyncer"@
    ||| name == "DocusaurusExpert"@
    ||| name == "UiDesignExpert"@
    ||| name == "CssExpert"@
    ||| name == "DocRunner"@
    ||| name == "DocVerifier"@
    ||| name == "FixPlanner"@
    ||| name == "Implementer"@
    ||| name == "RefactoringGuru"@
    ||| name == "CodeReviewer"@
    ||| name == "GitCommitter"@
}

impl AgentRole {
    /// The role's name.
    pub open spec fn name_text(&self) -> Seq<char> {
        match self {
            AgentRole::DocCoordinator => "DocCoordinator"@,
            AgentRole::DocContentSyncer => "DocContentSyncer"@,
            AgentRole::DocusaurusExpert => "DocusaurusExpert"@,
            AgentRole::UiDesignExpert => "UiDesignExpert"@,
            AgentRole::CssExpert => "CssExpert"@,
            AgentRole::DocRunner => "DocRunner"@,
            AgentRole::DocVerifier => "DocVerifier"@,
            AgentRole::FixPlanner => "FixPlanner"@,
            AgentRole::Implementer => "Implementer"@,
            AgentRole::RefactoringGuru => "RefactoringGuru"@,
            AgentRole::CodeReviewer => "CodeReviewer"@,
            AgentRole::GitCommitter => "GitCommitter"@,
            AgentRole::Custom(name) => name@,
        }
    }

    /// The role's name.
    pub fn name(&self) -> (name: String)
        ensures
            name@ == self.name_text(),
    {
        match self {
            AgentRole::DocCoordinator => String::from_str("DocCoordinator"),
            AgentRole::DocContentSyncer => String::from_str("DocContentSyncer"),
            AgentRole::DocusaurusExpert => String::from_str("DocusaurusExpert"),
            AgentRole::UiDesignExpert => String::from_str("UiDesignExpert"),
            AgentRole::CssExpert => String::from_str("CssExpert"),
            AgentRole::DocRunner => String::from_str("DocRunner"),
            AgentRole::DocVerifier => String::from_str("DocVerifier"),
            AgentRole::FixPlanner => String::from_str("FixPlanner"),
            AgentRole::Implementer => String::from_str("Implementer"),
            AgentRole::RefactoringGuru => String::from_str("RefactoringGuru"),
            AgentRole::CodeReviewer => String::from_str("CodeReviewer"),
            AgentRole::GitCommitter => String::from_str("GitCommitter"),
            AgentRole::Custom(name) => name.clone(),
        }
    }

    /// The role with the given name: the fixed role of that name, or a
    /// custom role where no fixed role has it.
    pub fn from_str(role_name: &str) -> (role: Self)
        ensures
            role.name_text() == role_name@,
            role is Custom <==> !is_fixed_role_name(role_name@),
    {
        if str_eq(role_name, "DocCoordinator") {
            AgentRole::DocCoordinator
        } else if str_eq(role_name, "DocContentSyncer") {
            AgentRole::DocContentSyncer
        } else if str_eq(role_name, "DocusaurusExpert") {
            AgentRole::DocusaurusExpert
        } else if str_eq(role_name, "UiDesignExpert") {
            AgentRole::UiDesignExpert
        } else if str_eq(role_name, "CssExpert") {
            AgentRole::CssExpert
        } else if str_eq(role_name, "DocRunner") {
            AgentRole::DocRunner
        } else if str_eq(role_name, "DocVerifier") {
            AgentRole::DocVerifier
        } else if str_eq(role_name, "FixPlanner") {
            AgentRole::FixPlanner
        } else if str_eq(role_name, "Implementer") {
            AgentRole::Implementer
        } else if str_eq(role_name, "RefactoringGuru") {
            AgentRole::RefactoringGuru
        } else if str_eq(role_name, "CodeReviewer") {
            AgentRole::CodeReviewer
        } else if str_eq(role_name, "GitCommitter") {
            AgentRole::GitCommitter
        } else {
            AgentRole::Custom(String::from_str(role_name))
        }
    }
}

impl Clone for AgentRole {
    fn clone(&self) -> (copy: Self)
        ensures
            copy == *self,
    {
        match self {
            AgentRole::DocCoordinator => AgentRole::DocCoordinator,
            AgentRole::DocContentSyncer => AgentRole::DocContentSyncer,
            AgentRole::DocusaurusExpert => AgentRole::DocusaurusExpert,
            AgentRole::UiDesignExpert => AgentRole::UiDesignExpert,
            AgentRole::CssExpert => AgentRole::CssExpert,
            AgentRole::DocRunner => AgentRole::DocRunner,
            AgentRole::DocVerifier => AgentRole::DocVerifier,
            AgentRole::FixPlanner => AgentRole::FixPlanner,
            AgentRole::Implementer => AgentRole::Implementer,
            AgentRole::RefactoringGuru => AgentRole::RefactoringGuru,
            AgentRole::CodeReviewer => AgentRole::CodeReviewer,
            AgentRole::GitCommitter => AgentRole::GitCommitter,
            AgentRole::Custom(name) => AgentRole::Custom(name.clone()),
        }
    }
}

} // verus!
