use crate::str_map::StrMap;
use crate::text::{join3, replace_all, replaced};
use vstd::prelude::*;

verus! {

/// Why a prompt template could not be had. Each variant carries the detail
/// as text.
#[derive(Debug, Clone)]
pub enum PromptError {
    TemplateNotFound(String),
    IoError(String),
    RenderingError(String),
    InvalidFormat(String),
}

impl PromptError {
    /// The error as one line of text: what kind it is, then the detail.
    pub open spec fn text(&self) -> Seq<char> {
        match self {
            PromptError::TemplateNotFound(d) => "Template not found: "@ + d@,
            PromptError::IoError(d) => "IO error: "@ + d@,
            PromptError::RenderingError(d) => "Template rendering error: "@ + d@,
            PromptError::InvalidFormat(d) => "Invalid template format: "@ + d@,
        }
    }

    /// The error as one line of text.
    pub fn message(&self) -> (line: String)
        ensures
            line@ == self.text(),
    {
        match self {
            PromptError::TemplateNotFound(d) => crate::text::join2(
                "Template not found: ",
                d.as_str(),
            ),
            PromptError::IoError(d) => crate::text::join2("IO error: ", d.as_str()),
            PromptError::RenderingError(d) => crate::text::join2(
                "Template rendering error: ",
                d.as_str(),
            ),
            PromptError::InvalidFormat(d) => crate::text::join2(
                "Invalid template format: ",
                d.as_str(),
            ),
        }
    }
}

/// The templates named by `names`, in order, each set off from what stands
/// before it by an empty line, behind `base`.
pub open spec fn combined(
    templates: Map<Seq<char>, Seq<char>>,
    base: Seq<char>,
    names: Seq<Seq<char>>,
) -> Seq<char>
    decreases names.len(),
{
    if names.len() == 0 {
        base
    } else {
        combined(templates, base, names.drop_last()) + "\n\n"@ + templates[names.last()]
    }
}

/// `missing` is the first of `base` and `names` that has no template.
pub open spec fn missing_first(
    templates: Map<Seq<char>, Seq<char>>,
    base: Seq<char>,
    names: Seq<Seq<char>>,
    missing: Seq<char>,
) -> bool {
    &&& !templates.contains_key(missing)
    &&& missing == base || (templates.contains_key(base) && exists|i: int|
        0 <= i < names.len() && #[trigger] names[i] == missing && forall|j: int|
            0 <= j < i ==> templates.contains_key(#[trigger] names[j]))
}

/// Keeps prompt templates by name.
#[derive(Debug, Clone)]
pub struct PromptTemplateManager {
    templates: StrMap<String>,
    base_path: String,
}

impl PromptTemplateManager {
    /// The templates: each name with its text.
    pub closed spec fn templates(&self) -> Map<Seq<char>, Seq<char>> {
        self.templates.texts()
    }

    /// The directory below which template files are looked for.
    pub closed spec fn base(&self) -> Seq<char> {
        self.base_path@
    }

    /// A manager without templates that looks for files below "templates".
    pub fn new() -> (manager: Self)
        ensures
            manager.templates() == Map::<Seq<char>, Seq<char>>::empty(),
            manager.base() == "templates"@,
    {
        let manager = PromptTemplateManager {
            templates: StrMap::new(),
            base_path: String::from_str("templates"),
        };
        assert(manager.templates() =~= Map::<Seq<char>, Seq<char>>::empty());
        manager
    }

    /// The same manager, looking for files below `path`.
    pub fn with_base_path(self, path: &str) -> (manager: Self)
        ensures
            manager.base() == path@,
            manager.templates() == self.templates(),
    {
        let mut manager = self;
        manager.base_path = String::from_str(path);
        manager
    }

    /// The directory below which template files are looked for.
    pub fn base_path(&self) -> (path: &String)
        ensures
            path@ == self.base(),
    {
        &self.base_path
    }

    /// The text of the template `name`.
    pub fn get_template(&self, name: &str) -> (found: Result<String, PromptError>)
        ensures
            match found {
                Ok(text) => self.templates().contains_key(name@) && text@ == self.templates()[name@],
                Err(e) => {
                    &&& !self.templates().contains_key(name@)
                    &&& e matches PromptError::TemplateNotFound(d) && d@ == name@
                },
            },
    {
        match self.templates.get(name) {
            Some(text) => Ok(text.clone()),
            None => Err(PromptError::TemplateNotFound(String::from_str(name))),
        }
    }

    /// Keeps `content` as the template `name`, in place of an earlier one
    /// of that name.
    pub fn set_template(&mut self, name: &str, content: &str)
        ensures
            final(self).templates() == old(self).templates().insert(name@, content@),
            final(self).base() == old(self).base(),
    {
        self.templates.set(name, content);
    }

    /// The template `base_name` with the templates `module_names` behind
    /// it, in order, each set off by an empty line. The first name without
    /// a template, the base name before the others, is reported.
    pub fn combine_templates(&self, base_name: &str, module_names: &[&str]) -> (joined: Result<
        String,
        PromptError,
    >)
        ensures
            match joined {
                Ok(text) => {
                    &&& self.templates().contains_key(base_name@)
                    &&& forall|i: int|
                        0 <= i < module_names@.len() ==> self.templates().contains_key(
                            (#[trigger] module_names@[i])@,
                        )
                    &&& text@ == combined(
                        self.templates(),
                        self.templates()[base_name@],
                        module_names@.map_values(|n: &str| n@),
                    )
                },
                Err(e) => e matches PromptError::TemplateNotFound(d) && missing_first(
                    self.templates(),
                    base_name@,
                    module_names@.map_values(|n: &str| n@),
                    d@,
                ),
            },
    {
        let mut result = match self.get_template(base_name) {
            Ok(text) => text,
            Err(e) => {
                return Err(e);
            },
        };
        let ghost names = module_names@.map_values(|n: &str| n@);
        let n: usize = module_names.len();
        let mut i: usize = 0;
        while i < n
            invariant
                n == module_names@.len(),
                i <= n,
                names == module_names@.map_values(|n: &str| n@),
                self.templates().contains_key(base_name@),
                forall|j: int|
                    0 <= j < i ==> self.templates().contains_key((#[trigger] module_names@[j])@),
                result@ == combined(
                    self.templates(),
                    self.templates()[base_name@],
                    names.subrange(0, i as int),
                ),
            decreases n - i,
        {
            let module_template = match self.get_template(module_names[i]) {
                Ok(text) => text,
                Err(e) => {
                    proof {
                        assert(names[i as int] == module_names@[i as int]@);
                        assert forall|j: int| 0 <= j < i implies self.templates().contains_key(
                            #[trigger] names[j],
                        ) by {
                            assert(names[j] == module_names@[j]@);
                        }
                    }
                    return Err(e);
                },
            };
            result.append("\n\n");
            result.append(module_template.as_str());
            proof {
                assert(names.subrange(0, i + 1).drop_last() =~= names.subrange(0, i as int));
                assert(names.subrange(0, i + 1).last() == module_names@[i as int]@);
            }
            i += 1;
        }
        proof {
            assert(names.subrange(0, n as int) =~= names);
        }
        Ok(result)
    }
}

/// The mark that stands in a template for the value of `key`.
pub open spec fn placeholder(key: Seq<char>) -> Seq<char> {
    "{{ "@ + key + " }}"@
}

/// `template` with the placeholder of each of `keys`, in order, replaced
/// by the value that `values` holds for the key.
pub open spec fn rendered(
    template: Seq<char>,
    keys: Seq<Seq<char>>,
    values: Map<Seq<char>, Seq<char>>,
) -> Seq<char>
    decreases keys.len(),
{
    if keys.len() == 0 {
        template
    } else {
        replaced(
            rendered(template, keys.drop_last(), values),
            placeholder(keys.last()),
            values[keys.last()],
        )
    }
}

impl PromptTemplateManager {
    /// The template `template_name` with the placeholder `{{ key }}` of
    /// each key of `context` replaced by the key's value, the keys taken in
    /// their order.
    pub fn render(&self, template_name: &str, context: &StrMap<String>) -> (text: Result<
        String,
        PromptError,
    >)
        ensures
            match text {
                Ok(t) => self.templates().contains_key(template_name@) && t@ == rendered(
                    self.templates()[template_name@],
                    context.keys(),
                    context.texts(),
                ),
                Err(e) => {
                    &&& !self.templates().contains_key(template_name@)
                    &&& e matches PromptError::TemplateNotFound(d) && d@ == template_name@
                },
            },
    {
        let mut result = match self.get_template(template_name) {
            Ok(t) => t,
            Err(e) => {
                return Err(e);
            },
        };
        let n: usize = context.len();
        let ghost keys = context.keys();
        let ghost template = self.templates()[template_name@];
        let mut i: usize = 0;
        while i < n
            invariant
                keys == context.keys(),
                n == keys.len(),
                i <= n,
                result@ == rendered(template, keys.subrange(0, i as int), context.texts()),
            decreases n - i,
        {
            let key = context.key_at(i);
            let value = context.value_at(i);
            let mark = join3("{{ ", key.as_str(), " }}");
            proof {
                assert(keys.subrange(0, i + 1).drop_last() =~= keys.subrange(0, i as int));
                assert(keys.subrange(0, i + 1).last() == key@);
            }
            result = replace_all(result.as_str(), mark.as_str(), value.as_str());
            i += 1;
        }
        proof {
            assert(keys.subrange(0, n as int) =~= keys);
        }
        Ok(result)
    }
}

} // verus!
