//! Plain value records: rosters, persisted settings, and the small fixed
//! tables (providers, Bates separators, theme names) that cursors range over.

use vstd::prelude::*;

verus! {

/// One member of a generated company roster.
#[derive(Debug)]
pub struct Employee {
    pub name: String,
    pub email: String,
    pub department: String,
    pub title: String,
}

impl Clone for Employee {
    fn clone(&self) -> (r: Self)
        ensures
            r == *self,
    {
        Employee {
            name: self.name.clone(),
            email: self.email.clone(),
            department: self.department.clone(),
            title: self.title.clone(),
        }
    }
}

/// A generated company roster: a name, a mail domain and its employees.
#[derive(Debug)]
pub struct Company {
    pub company_name: String,
    pub domain: String,
    pub employees: Vec<Employee>,
}

/// The mathematical value of a [`Company`]: the same fields with the
/// employee list abstracted to a sequence.
pub struct CompanyModel {
    pub company_name: String,
    pub domain: String,
    pub employees: Seq<Employee>,
}

impl View for Company {
    type V = CompanyModel;

    open spec fn view(&self) -> CompanyModel {
        CompanyModel {
            company_name: self.company_name,
            domain: self.domain,
            employees: self.employees@,
        }
    }
}

/// The values of a list of companies, element by element.
pub open spec fn companies_view(v: Seq<Company>) -> Seq<CompanyModel> {
    v.map_values(|c: Company| c@)
}

/// The contents of a list of strings, element by element.
pub open spec fn strings_view(v: Seq<String>) -> Seq<Seq<char>> {
    v.map_values(|s: String| s@)
}

impl Clone for Company {
    fn clone(&self) -> (r: Self)
        ensures
            r@ == self@,
    {
        let employees = clone_employees(&self.employees);
        Company { company_name: self.company_name.clone(), domain: self.domain.clone(), employees }
    }
}

/// Clones a roster element by element.
fn clone_employees(v: &Vec<Employee>) -> (r: Vec<Employee>)
    ensures
        r@ == v@,
{
    let mut r: Vec<Employee> = Vec::new();
    let mut i: usize = 0;
    while i < v.len()
        invariant
            i <= v@.len(),
            r@ == v@.subrange(0, i as int),
        decreases v@.len() - i,
    {
        r.push(v[i].clone());
        i += 1;
        proof {
            assert(r@ =~= v@.subrange(0, i as int));
        }
    }
    proof {
        assert(r@ =~= v@);
    }
    r
}

/// Clones a list of companies element by element.
pub fn clone_companies(v: &Vec<Company>) -> (r: Vec<Company>)
    ensures
        companies_view(r@) == companies_view(v@),
{
    let mut r: Vec<Company> = Vec::new();
    let mut i: usize = 0;
    while i < v.len()
        invariant
            i <= v@.len(),
            r@.len() == i,
            forall|j: int| 0 <= j < i ==> r@[j]@ == v@[j]@,
        decreases v@.len() - i,
    {
        r.push(v[i].clone());
        i += 1;
    }
    proof {
        assert(companies_view(r@) =~= companies_view(v@));
    }
    r
}

/// Clones a list of strings element by element.
pub fn clone_strings(v: &Vec<String>) -> (r: Vec<String>)
    ensures
        r@ == v@,
{
    let mut r: Vec<String> = Vec::new();
    let mut i: usize = 0;
    while i < v.len()
        invariant
            i <= v@.len(),
            r@ == v@.subrange(0, i as int),
        decreases v@.len() - i,
    {
        r.push(v[i].clone());
        i += 1;
        proof {
            assert(r@ =~= v@.subrange(0, i as int));
        }
    }
    proof {
        assert(r@ =~= v@);
    }
    r
}

/// The flat record of the reproducible session configuration, read at
/// startup and written back at shutdown by an outside collaborator.
#[derive(Debug)]
pub struct Settings {
    pub selected_model_index: usize,
    pub provider_index: usize,
    pub openrouter_model_index: usize,
    pub total_files: u32,
    pub percent_attachments: u32,
    pub selected_topics: Vec<String>,
    pub company_size: u32,
    pub companies: Vec<Company>,
    pub convert_combine: bool,
    pub bates_prefix: String,
    pub bates_separator_index: usize,
    pub bates_start: u32,
    pub bates_padding: u32,
    pub reply_percent: u32,
    pub forward_percent: u32,
    pub theme_index: usize,
}

/// Default share of reply steps when the persisted record lacks the field.
pub fn default_reply_pct() -> (r: u32)
    ensures
        r == 80,
{
    80
}

/// Default share of forward steps when the persisted record lacks the field.
pub fn default_forward_pct() -> (r: u32)
    ensures
        r == 10,
{
    10
}

/// Default Bates prefix when the persisted record lacks the field.
pub fn default_bates_prefix() -> (r: String)
    ensures
        r@ == "BATES"@,
{
    String::from_str("BATES")
}

/// Default first Bates number when the persisted record lacks the field.
pub fn default_bates_start() -> (r: u32)
    ensures
        r == 1,
{
    1
}

/// Default zero-padding width when the persisted record lacks the field.
pub fn default_bates_padding() -> (r: u32)
    ensures
        r == 7,
{
    7
}

/// How many separator choices the Bates section cycles through.
pub const BATES_SEPARATOR_COUNT: usize = 3;

/// The separator string at position `i` of the fixed separator set.
pub open spec fn bates_separator_spec(i: int) -> Seq<char> {
    if i == 0 {
        "-"@
    } else if i == 1 {
        "_"@
    } else {
        "."@
    }
}

/// The separator at position `i` of the fixed set `-`, `_`, `.`.
pub fn bates_separator(i: usize) -> (r: &'static str)
    requires
        i < BATES_SEPARATOR_COUNT,
    ensures
        r@ == bates_separator_spec(i as int),
{
    if i == 0 {
        "-"
    } else if i == 1 {
        "_"
    } else {
        "."
    }
}

/// How many providers can be toggled between.
pub const PROVIDER_COUNT: usize = 2;

/// The display label of provider `i`.
pub open spec fn provider_label_spec(i: int) -> Seq<char> {
    if i == 0 {
        "Gemini"@
    } else {
        "OpenRouter"@
    }
}

/// The short name of provider `i`, as the external generator expects it.
pub open spec fn provider_short_spec(i: int) -> Seq<char> {
    if i == 0 {
        "gemini"@
    } else {
        "openrouter"@
    }
}

/// Display label of provider `i` (`Gemini`, then `OpenRouter`).
pub fn provider_label(i: usize) -> (r: &'static str)
    requires
        i < PROVIDER_COUNT,
    ensures
        r@ == provider_label_spec(i as int),
{
    if i == 0 {
        "Gemini"
    } else {
        "OpenRouter"
    }
}

/// How many color themes the settings section lists.
pub const THEME_COUNT: usize = 5;

/// The name of theme `i` of the fixed palette list.
pub open spec fn theme_name_spec(i: int) -> Seq<char> {
    if i == 0 {
        "Default"@
    } else if i == 1 {
        "Nord"@
    } else if i == 2 {
        "Dracula"@
    } else if i == 3 {
        "Gruvbox"@
    } else {
        "Tokyo Night"@
    }
}

/// Name of theme `i` of the fixed palette list.
pub fn theme_name(i: usize) -> (r: &'static str)
    requires
        i < THEME_COUNT,
    ensures
        r@ == theme_name_spec(i as int),
{
    if i == 0 {
        "Default"
    } else if i == 1 {
        "Nord"
    } else if i == 2 {
        "Dracula"
    } else if i == 3 {
        "Gruvbox"
    } else {
        "Tokyo Night"
    }
}

} // verus!
