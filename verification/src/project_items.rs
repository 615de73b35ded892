//! The shapes of the GitHub GraphQL query for the items of a project, and
//! how to read their fields.

use vstd::prelude::*;

use crate::queries::{PageInfo, Uri};

verus! {

/// `chrono::NaiveDate`, a calendar date. Nothing here looks inside one.
#[verifier::external_type_specification]
#[verifier::external_body]
pub struct ExNaiveDate(chrono::NaiveDate);

/// A calendar date without a time zone.
pub type Date = chrono::NaiveDate;

#[derive(Debug, Clone)]
pub struct Arguments {
    pub project_number: i32,
    pub after: Option<String>,
}

#[derive(Debug)]
pub struct Query {
    pub organization: Option<Organization>,
}

#[derive(Debug)]
pub struct Organization {
    pub project_v2: Option<ProjectV2>,
}

#[derive(Debug)]
pub struct ProjectV2 {
    pub items: ProjectV2ItemConnection,
}

#[derive(Debug)]
pub struct ProjectV2ItemConnection {
    pub nodes: Option<Vec<Option<ProjectV2Item>>>,
    pub page_info: PageInfo,
}

#[derive(Debug)]
pub struct ProjectV2Item {
    pub content: Option<ProjectV2ItemContent>,
    /// The value of the field named "Status".
    pub status: Option<ProjectV2ItemFieldValue>,
    /// The value of the field named "Date".
    pub date: Option<ProjectV2ItemFieldValue>,
}

#[derive(Debug)]
pub enum ProjectV2ItemContent {
    Issue(Issue),
    /// Anything that is no issue.
    Other,
}

#[derive(Debug)]
pub enum ProjectV2ItemFieldValue {
    ProjectV2ItemFieldSingleSelectValue(ProjectV2ItemFieldSingleSelectValue),
    ProjectV2ItemFieldDateValue(ProjectV2ItemFieldDateValue),
    /// A value of any other kind.
    Other,
}

#[derive(Debug)]
pub struct Issue {
    pub title: String,
    pub url: Uri,
    pub number: i32,
}

#[derive(Debug)]
pub struct ProjectV2ItemFieldSingleSelectValue {
    pub name: Option<String>,
}

#[derive(Debug)]
pub struct ProjectV2ItemFieldDateValue {
    pub date: Option<Date>,
}

impl ProjectV2ItemFieldValue {
    /// The name that a single-select value holds; `None` for a value of
    /// another kind or without a name.
    pub open spec fn text(self) -> Option<Seq<char>> {
        match self {
            ProjectV2ItemFieldValue::ProjectV2ItemFieldSingleSelectValue(value) => match value.name {
                Some(name) => Some(name@),
                None => None,
            },
            _ => None,
        }
    }

    /// The date that a date value holds; `None` for a value of another kind
    /// or without a date.
    pub open spec fn day(self) -> Option<Date> {
        match self {
            ProjectV2ItemFieldValue::ProjectV2ItemFieldDateValue(value) => value.date,
            _ => None,
        }
    }

    /// The name chosen, if this is a single-select value that has one.
    pub fn as_str(&self) -> (name: Option<&str>)
        ensures
            match self.text() {
                Some(text) => name matches Some(s) && s@ == text,
                None => name is None,
            },
    {
        match self {
            ProjectV2ItemFieldValue::ProjectV2ItemFieldSingleSelectValue(value) => match &value.name {
                Some(name) => Some(name.as_str()),
                None => None,
            },
            _ => None,
        }
    }

    /// The date, if this is a date value that has one.
    pub fn as_date(&self) -> (date: Option<Date>)
        ensures
            date == self.day(),
    {
        match self {
            ProjectV2ItemFieldValue::ProjectV2ItemFieldDateValue(value) => value.date,
            _ => None,
        }
    }
}

impl ProjectV2Item {
    /// The status of the item, if the field holds a name.
    pub fn status(&self) -> (name: Option<&str>)
        ensures
            match self.status {
                Some(value) => match value.text() {
                    Some(text) => name matches Some(s) && s@ == text,
                    None => name is None,
                },
                None => name is None,
            },
    {
        match &self.status {
            Some(status) => status.as_str(),
            None => None,
        }
    }

    /// The date of the item, if the field holds one.
    pub fn date(&self) -> (date: Option<Date>)
        ensures
            date == match self.date {
                Some(value) => value.day(),
                None => None,
            },
    {
        match &self.date {
            Some(date) => date.as_date(),
            None => None,
        }
    }
}

} // verus!
