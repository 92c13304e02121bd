use portfolio_api::models::{
    Education, EducationItem, Experience, ExperienceCareer, ExperienceItem, ProjectItem, Projects, SkillItem, Skills,
    TestimonialItem, Testimonials,
};
use portfolio_api::ordering::stable_sort_by_key;

fn edu(name: &str, order: i32) -> EducationItem {
    EducationItem {
        institution: name.to_string(),
        institution_url: String::new(),
        degree: String::new(),
        field_of_study: String::new(),
        start: String::new(),
        end: None,
        current: false,
        order,
    }
}

#[test]
fn education_is_listed_by_order_stably() {
    let mut e = Education { items: vec![edu("c", 3), edu("a1", 1), edu("b", 2), edu("a2", 1), edu("z", -5)] };
    e.arrange();
    let names: Vec<&str> = e.items.iter().map(|i| i.institution.as_str()).collect();
    assert_eq!(names, vec!["z", "a1", "a2", "b", "c"]);
}

#[test]
fn sort_of_empty_and_single() {
    let empty: Vec<EducationItem> = Vec::new();
    assert!(stable_sort_by_key(empty).is_empty());
    let one = stable_sort_by_key(vec![edu("x", 9)]);
    assert_eq!(one.len(), 1);
    assert_eq!(one[0].institution, "x");
}

#[test]
fn sorting_twice_changes_nothing() {
    let once = stable_sort_by_key(vec![edu("b", 2), edu("a", 1), edu("c", 2)]);
    let names1: Vec<String> = once.iter().map(|i| i.institution.clone()).collect();
    let twice = stable_sort_by_key(once);
    let names2: Vec<String> = twice.iter().map(|i| i.institution.clone()).collect();
    assert_eq!(names1, names2);
    assert_eq!(names1, vec!["a", "b", "c"]);
}

fn career(pos: &str, order: i32) -> ExperienceCareer {
    ExperienceCareer {
        position: pos.to_string(),
        location: String::new(),
        start: String::new(),
        end: None,
        current: false,
        order,
        description: vec![],
    }
}

fn employer(name: &str, order: i32, career: Vec<ExperienceCareer>) -> ExperienceItem {
    ExperienceItem {
        company: name.to_string(),
        company_url: String::new(),
        start: String::new(),
        end: Some("2020".to_string()),
        current: false,
        order,
        career,
    }
}

#[test]
fn experience_sorts_employers_and_positions() {
    let mut x = Experience {
        items: vec![
            employer("late", 2, vec![career("p2", 2), career("p1", 1)]),
            employer("early", 1, vec![career("q1", 1), career("q0", 0), career("q1b", 1)]),
        ],
    };
    x.arrange();
    assert_eq!(x.items[0].company, "early");
    assert_eq!(x.items[1].company, "late");
    let early: Vec<&str> = x.items[0].career.iter().map(|c| c.position.as_str()).collect();
    assert_eq!(early, vec!["q0", "q1", "q1b"]);
    let late: Vec<&str> = x.items[1].career.iter().map(|c| c.position.as_str()).collect();
    assert_eq!(late, vec!["p1", "p2"]);
    assert_eq!(x.items[1].end.as_deref(), Some("2020"));
}

fn project(title: &str, order: i32) -> ProjectItem {
    ProjectItem {
        order,
        title: title.to_string(),
        description: String::new(),
        url: String::new(),
        tags: vec![],
        badge: None,
        badge_variant: None,
        preview_title: None,
        preview_lines: vec![],
        accent_color: None,
    }
}

#[test]
fn projects_are_listed_by_order() {
    let mut p = Projects { items: vec![project("b", 5), project("a", 0), project("c", 5)] };
    p.arrange();
    let titles: Vec<&str> = p.items.iter().map(|i| i.title.as_str()).collect();
    assert_eq!(titles, vec!["a", "b", "c"]);
}

fn quote(author: &str, order: i32) -> TestimonialItem {
    TestimonialItem {
        order,
        quote: String::new(),
        author_name: author.to_string(),
        author_role: String::new(),
        initials: String::new(),
        gradient_start: None,
        gradient_end: None,
        quote_color: None,
    }
}

#[test]
fn testimonials_are_listed_by_order() {
    let mut t = Testimonials { items: vec![quote("x", 2), quote("y", 1)] };
    t.arrange();
    let authors: Vec<&str> = t.items.iter().map(|i| i.author_name.as_str()).collect();
    assert_eq!(authors, vec!["y", "x"]);
}

fn skill(name: &str, level: i32, logo: &str) -> SkillItem {
    SkillItem { name: name.to_string(), level, logo: logo.to_string(), logo_color: "#fff".to_string(), category: None }
}

#[test]
fn skills_resolve_logos_and_list_by_level_descending() {
    let mut s = Skills {
        items: vec![
            skill("rust", 5, "/logos/rust.svg"),
            skill("go", 3, "https://cdn.other/go.png"),
            skill("c", 5, "logos/c.svg"),
            skill("zig", 9, "//zig.svg"),
            skill("min", i32::MIN, "http-like.svg"),
        ],
    };
    s.arrange("https://cdn.example.com//");
    let names: Vec<&str> = s.items.iter().map(|i| i.name.as_str()).collect();
    assert_eq!(names, vec!["zig", "rust", "c", "go", "min"]);
    assert_eq!(s.items[0].logo, "https://cdn.example.com/zig.svg");
    assert_eq!(s.items[1].logo, "https://cdn.example.com/logos/rust.svg");
    assert_eq!(s.items[2].logo, "https://cdn.example.com/logos/c.svg");
    assert_eq!(s.items[3].logo, "https://cdn.other/go.png");
    assert_eq!(s.items[4].logo, "http-like.svg");
}

#[test]
fn skills_with_bare_base() {
    let mut s = Skills { items: vec![skill("a", 1, "a.svg")] };
    s.arrange("");
    assert_eq!(s.items[0].logo, "/a.svg");
}
