//! The section documents served by the API, and how each is arranged before
//! it is served.

pub mod education;
pub mod experience;
pub mod personal_info;
pub mod projects;
pub mod section;
pub mod skills;
pub mod testimonials;

pub use crate::common::About;
pub use education::{Education, EducationItem};
pub use experience::{Experience, ExperienceCareer, ExperienceItem};
pub use personal_info::{PersonalInfo, PersonalInfoLink};
pub use projects::{ProjectBadgeVariant, ProjectItem, ProjectPreviewLine, ProjectPreviewSegment, Projects};
pub use section::StoredSection;
pub use skills::{SkillItem, Skills};
pub use testimonials::{TestimonialItem, Testimonials};
