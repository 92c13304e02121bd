//! Section documents of the `common` shape: personal details without links,
//! skills with a textual level.

use vstd::prelude::*;

verus! {

/// A section document with its key and revision stamp.
#[derive(Debug, Clone)]
pub struct StoredSection<T> {
    pub id: i64,
    pub section_type: String,
    pub updated_at: i64,
    pub data: T,
}

/// The "about" section.
#[derive(Debug, Clone)]
pub struct About {
    pub headline: String,
    pub content: String,
}

/// Personal details.
#[derive(Debug, Clone)]
pub struct PersonalInfo {
    pub first_name: String,
    pub last_name: String,
    pub birthdate: i64,
    pub email: String,
    pub location: String,
    pub location_city: String,
}

/// The education section.
#[derive(Debug, Clone)]
pub struct Education {
    pub items: Vec<EducationItem>,
}

/// One course of study.
#[derive(Debug, Clone)]
pub struct EducationItem {
    pub institution: String,
    pub institution_url: String,
    pub degree: String,
    pub field_of_study: String,
    pub start: String,
    pub end: Option<String>,
    pub current: bool,
    pub order: i32,
}

/// The experience section.
#[derive(Debug, Clone)]
pub struct Experience {
    pub items: Vec<ExperienceItem>,
}

/// One employer.
#[derive(Debug, Clone)]
pub struct ExperienceItem {
    pub company: String,
    pub company_url: String,
    pub start: String,
    pub end: Option<String>,
    pub current: bool,
    pub order: i32,
    pub career: Vec<ExperienceCareer>,
}

/// One position held at an employer.
#[derive(Debug, Clone)]
pub struct ExperienceCareer {
    pub position: String,
    pub location: String,
    pub start: String,
    pub end: Option<String>,
    pub current: bool,
    pub order: i32,
    pub description: Vec<String>,
}

/// The skills section.
#[derive(Debug, Clone)]
pub struct Skills {
    pub items: Vec<SkillsItem>,
}

/// One skill.
#[derive(Debug, Clone)]
pub struct SkillsItem {
    pub name: String,
    pub level: String,
    pub logo: String,
}

} // verus!
