use vstd::prelude::*;
use crate::meta::{opt_value, all_as_strings, all_strings, collect_strings, spec_get, strings_of, ConfigError, MetaValue};
use crate::path::views;

verus! {

/// What a `ConfigError` says, with its key as text.
pub enum ConfigFault {
    NotAnArray(Seq<char>),
    NotAString(Seq<char>),
    ElementNotString(Seq<char>),
    Missing(Seq<char>),
    MissingGenerator,
    InvalidBuildSetting,
}

impl View for ConfigError {
    type V = ConfigFault;

    open spec fn view(&self) -> ConfigFault {
        match self {
            ConfigError::NotAnArray { key } => ConfigFault::NotAnArray(key@),
            ConfigError::NotAString { key } => ConfigFault::NotAString(key@),
            ConfigError::ElementNotString { key } => ConfigFault::ElementNotString(key@),
            ConfigError::Missing { key } => ConfigFault::Missing(key@),
            ConfigError::MissingGenerator => ConfigFault::MissingGenerator,
            ConfigError::InvalidBuildSetting => ConfigFault::InvalidBuildSetting,
        }
    }
}

/// The three kinds of extra files that metadata can ask to install.
#[derive(Debug, PartialEq, Eq, Structural, Clone, Copy)]
pub enum Category {
    Share,
    Headers,
    Lib,
}

pub open spec fn category_at(i: int) -> Category {
    if i == 0 {
        Category::Share
    } else if i == 1 {
        Category::Headers
    } else {
        Category::Lib
    }
}

/// The metadata key that lists the category's files.
pub open spec fn category_key(c: Category) -> Seq<char> {
    match c {
        Category::Share => "install_to_share"@,
        Category::Headers => "install_to_include"@,
        Category::Lib => "install_to_lib"@,
    }
}

/// The top-level install directory of a category: its key without `install_to_`.
pub open spec fn category_dir(c: Category) -> Seq<char> {
    category_key(c).subrange(11, category_key(c).len() as int)
}

impl Category {
    pub fn key(&self) -> (r: &'static str)
        ensures
            r@ == category_key(*self),
    {
        match self {
            Category::Share => "install_to_share",
            Category::Headers => "install_to_include",
            Category::Lib => "install_to_lib",
        }
    }

    pub fn dir(&self) -> (r: &'static str)
        ensures
            r@ == category_dir(*self),
    {
        let k = self.key();
        proof {
            reveal_strlit("install_to_share");
            reveal_strlit("install_to_include");
            reveal_strlit("install_to_lib");
        }
        k.substring_char(11, k.unicode_len())
    }
}

/// The files of one category, as paths relative to the package.
#[derive(Debug, Clone, PartialEq, Eq)]
pub struct FileGroup {
    pub category: Category,
    pub paths: Vec<String>,
}

impl View for FileGroup {
    type V = (Category, Seq<Seq<char>>);

    open spec fn view(&self) -> (Category, Seq<Seq<char>>) {
        (self.category, views(self.paths@))
    }
}

pub open spec fn groups_view(v: Seq<FileGroup>) -> Seq<(Category, Seq<Seq<char>>)> {
    Seq::new(v.len(), |i: int| v[i]@)
}

/// The `[package.metadata.ros]` table, when the metadata is a table that has one.
pub open spec fn ros_table(metadata: Option<MetaValue>) -> Option<MetaValue> {
    match metadata {
        Some(m) => match spec_get(m, "ros"@) {
            Some(MetaValue::Table(t)) => Some(MetaValue::Table(t)),
            _ => None,
        },
        None => None,
    }
}

/// The file groups of the first `k` categories found in `ros`, or the first shape error.
pub open spec fn groups_upto(ros: MetaValue, k: int) -> Result<
    Seq<(Category, Seq<Seq<char>>)>,
    ConfigFault,
>
    decreases k,
{
    if k <= 0 {
        Ok(seq![])
    } else {
        match groups_upto(ros, k - 1) {
            Err(e) => Err(e),
            Ok(gs) => {
                let c = category_at(k - 1);
                match spec_get(ros, category_key(c)) {
                    None => Ok(gs),
                    Some(MetaValue::Array(vs)) => if all_strings(vs@) {
                        Ok(gs.push((c, strings_of(vs@))))
                    } else {
                        Err(ConfigFault::ElementNotString(category_key(c)))
                    },
                    Some(_) => Err(ConfigFault::NotAnArray(category_key(c))),
                }
            },
        }
    }
}

proof fn lemma_groups_err_stays(ros: MetaValue, j: int, k: int)
    requires
        j <= k,
        groups_upto(ros, j) is Err,
    ensures
        groups_upto(ros, k) == groups_upto(ros, j),
    decreases k - j,
{
    if j < k {
        lemma_groups_err_stays(ros, j, k - 1);
    }
}

/// The extra-file groups that the metadata declares, in category order
/// (shared data, headers, library-adjacent).
pub open spec fn spec_file_groups(metadata: Option<MetaValue>) -> Result<
    Seq<(Category, Seq<Seq<char>>)>,
    ConfigFault,
> {
    match ros_table(metadata) {
        None => Ok(seq![]),
        Some(ros) => groups_upto(ros, 3),
    }
}

/// Reads the `install_to_share`, `install_to_include` and `install_to_lib`
/// lists. An entry that is not an array, or holds a non-string, is an error.
pub fn extra_file_groups(metadata: Option<&MetaValue>) -> (r: Result<Vec<FileGroup>, ConfigError>)
    ensures
        match (r, spec_file_groups(opt_value(metadata))) {
            (Ok(v), Ok(g)) => groups_view(v@) == g,
            (Err(e), Err(f)) => e@ == f,
            _ => false,
        },
{
    let mut out: Vec<FileGroup> = Vec::new();
    let ros = match metadata {
        Some(m) => match m.get("ros") {
            Some(t) => match t {
                MetaValue::Table(_) => t,
                _ => {
                    assert(groups_view(out@) =~= seq![]);
                    return Ok(out);
                },
            },
            None => {
                assert(groups_view(out@) =~= seq![]);
                return Ok(out);
            },
        },
        None => {
            assert(groups_view(out@) =~= seq![]);
            return Ok(out);
        },
    };
    assert(ros_table(opt_value(metadata)) == Some(*ros));
    let cats: [Category; 3] = [Category::Share, Category::Headers, Category::Lib];
    let mut i: usize = 0;
    assert(groups_view(out@) =~= seq![]);
    while i < 3
        invariant
            i <= 3,
            cats@ == seq![Category::Share, Category::Headers, Category::Lib],
            groups_upto(*ros, i as int) == Ok::<_, ConfigFault>(groups_view(out@)),
            ros_table(opt_value(metadata)) == Some(*ros),
        decreases 3 - i,
    {
        let c = cats[i];
        assert(c == category_at(i as int));
        let key = c.key();
        match ros.get(key) {
            None => {},
            Some(MetaValue::Array(vs)) => {
                match all_as_strings(vs) {
                    Some(paths) => {
                        let ghost before = out@;
                        out.push(FileGroup { category: c, paths });
                        assert(groups_view(out@) =~= groups_view(before).push(
                            (c, strings_of(vs@)),
                        )) by {
                            assert(views(paths@) =~= paths@.map_values(|s: String| s@));
                        }
                    },
                    None => {
                        proof {
                            lemma_groups_err_stays(*ros, i + 1, 3);
                        }
                        return Err(ConfigError::ElementNotString { key: String::from_str(key) });
                    },
                }
            },
            Some(_) => {
                proof {
                    lemma_groups_err_stays(*ros, i + 1, 3);
                }
                return Err(ConfigError::NotAnArray { key: String::from_str(key) });
            },
        }
        i = i + 1;
    }
    Ok(out)
}

/// Where the message generator comes from.
#[derive(Debug, Clone, PartialEq, Eq)]
pub enum Generator {
    Path(String),
    Version(String),
}

pub enum GeneratorSource {
    Path(Seq<char>),
    Version(Seq<char>),
}

/// A request to generate message code: the dependency names, the output
/// directory and the generator.
#[derive(Debug, Clone, PartialEq, Eq)]
pub struct CodegenRequest {
    pub libs: Vec<String>,
    pub msg_dir: String,
    pub generator: Generator,
}

impl View for CodegenRequest {
    type V = (Seq<Seq<char>>, Seq<char>, GeneratorSource);

    open spec fn view(&self) -> (Seq<Seq<char>>, Seq<char>, GeneratorSource) {
        (
            views(self.libs@),
            self.msg_dir@,
            match self.generator {
                Generator::Path(p) => GeneratorSource::Path(p@),
                Generator::Version(v) => GeneratorSource::Version(v@),
            },
        )
    }
}

/// The generator named under `ros`, or the error for its absence or shape.
pub open spec fn spec_generator(ros: MetaValue) -> Result<GeneratorSource, ConfigFault> {
    match spec_get(ros, "safe_drive_path"@) {
        Some(MetaValue::Str(p)) => Ok(GeneratorSource::Path(p@)),
        Some(_) => Err(ConfigFault::NotAString("safe_drive_path"@)),
        None => match spec_get(ros, "safe_drive_version"@) {
            Some(MetaValue::Str(v)) => Ok(GeneratorSource::Version(v@)),
            Some(_) => Err(ConfigFault::NotAString("safe_drive_version"@)),
            None => Err(ConfigFault::MissingGenerator),
        },
    }
}

/// The code generation that the metadata asks for: none without a `msg`
/// list; else the string elements of `msg`, the required `msg_dir`, and the
/// generator.
pub open spec fn spec_codegen(metadata: Option<MetaValue>) -> Result<
    Option<(Seq<Seq<char>>, Seq<char>, GeneratorSource)>,
    ConfigFault,
> {
    match metadata {
        None => Ok(None),
        Some(m) => match spec_get(m, "ros"@) {
            None => Ok(None),
            Some(ros) => match spec_get(ros, "msg"@) {
                None => Ok(None),
                Some(MetaValue::Array(libs)) => match spec_get(ros, "msg_dir"@) {
                    Some(MetaValue::Str(d)) => match spec_generator(ros) {
                        Ok(g) => Ok(Some((strings_of(libs@), d@, g))),
                        Err(e) => Err(e),
                    },
                    Some(_) => Err(ConfigFault::NotAString("msg_dir"@)),
                    None => Err(ConfigFault::Missing("msg_dir"@)),
                },
                Some(_) => Err(ConfigFault::NotAnArray("msg"@)),
            },
        },
    }
}

fn generator_of(ros: &MetaValue) -> (r: Result<Generator, ConfigError>)
    ensures
        match (r, spec_generator(*ros)) {
            (Ok(g), Ok(s)) => match g {
                Generator::Path(p) => s == GeneratorSource::Path(p@),
                Generator::Version(v) => s == GeneratorSource::Version(v@),
            },
            (Err(e), Err(f)) => e@ == f,
            _ => false,
        },
{
    match ros.get("safe_drive_path") {
        Some(MetaValue::Str(p)) => Ok(Generator::Path(p.clone())),
        Some(_) => Err(ConfigError::NotAString { key: String::from_str("safe_drive_path") }),
        None => match ros.get("safe_drive_version") {
            Some(MetaValue::Str(v)) => Ok(Generator::Version(v.clone())),
            Some(_) => Err(ConfigError::NotAString { key: String::from_str("safe_drive_version") }),
            None => Err(ConfigError::MissingGenerator),
        },
    }
}

/// Decides whether message code is to be generated, and from what.
pub fn generate_msg(metadata: Option<&MetaValue>) -> (r: Result<Option<CodegenRequest>, ConfigError>)
    ensures
        match (r, spec_codegen(opt_value(metadata))) {
            (Ok(None), Ok(None)) => true,
            (Ok(Some(q)), Ok(Some(s))) => q@ == s,
            (Err(e), Err(f)) => e@ == f,
            _ => false,
        },
{
    let m = match metadata {
        Some(m) => m,
        None => {
            return Ok(None);
        },
    };
    let ros = match m.get("ros") {
        Some(t) => t,
        None => {
            return Ok(None);
        },
    };
    let libs = match ros.get("msg") {
        Some(MetaValue::Array(a)) => a,
        Some(_) => {
            return Err(ConfigError::NotAnArray { key: String::from_str("msg") });
        },
        None => {
            return Ok(None);
        },
    };
    let msg_dir = match ros.get("msg_dir") {
        Some(MetaValue::Str(d)) => d,
        Some(_) => {
            return Err(ConfigError::NotAString { key: String::from_str("msg_dir") });
        },
        None => {
            return Err(ConfigError::Missing { key: String::from_str("msg_dir") });
        },
    };
    let generator = match generator_of(ros) {
        Ok(g) => g,
        Err(e) => {
            return Err(e);
        },
    };
    let names = collect_strings(libs);
    let q = CodegenRequest { libs: names, msg_dir: msg_dir.clone(), generator };
    assert(views(q.libs@) =~= q.libs@.map_values(|s: String| s@));
    Ok(Some(q))
}

} // verus!
