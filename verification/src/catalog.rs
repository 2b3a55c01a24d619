//! The language catalog: a read-only mapping from language tag to a
//! build/run recipe.
//!
//! Lookup tries the lower-cased tag first, then the numeric alias. Recipes
//! never run through a shell: each command is an argv vector handed to exec
//! directly.

use vstd::prelude::*;
use vstd::string::StringExecFns;
use vstd::string::StringSliceAdditionalSpecFns;
use crate::text::{lower_bytes, matches_ignore_ascii_case};
use crate::types::LanguageInfo;

verus! {

/// The recipe for one language: where the source goes, how to build it (if
/// at all) and how to run it.
pub struct LanguageConfig {
    /// The catalog key the language tag is matched against, lower case.
    pub key: &'static str,
    /// Numeric alias of the language.
    pub id: u32,
    /// Human-readable name.
    pub name: String,
    /// File name the submitted source is written to.
    pub source_file: String,
    /// The compile argv, for compiled languages.
    pub compile_cmd: Option<Vec<String>>,
    /// The run argv; never empty.
    pub run_cmd: Vec<String>,
    /// Container image the recipe was written for, informational only.
    pub docker_image: Option<String>,
}

impl LanguageConfig {
    /// A usable recipe: both argv vectors name at least a program.
    pub open spec fn wf(&self) -> bool {
        &&& self.run_cmd@.len() > 0
        &&& self.compile_cmd is Some ==> self.compile_cmd->0@.len() > 0
    }
}

/// The first catalog entry whose key equals the lower-cased tag bytes.
pub open spec fn find_by_tag(cat: Seq<LanguageConfig>, tag: Seq<u8>) -> Option<int>
    decreases cat.len(),
{
    if cat.len() == 0 {
        None
    } else if lower_bytes(tag) == cat[0].key.spec_bytes() {
        Some(0)
    } else {
        match find_by_tag(cat.drop_first(), tag) {
            Some(i) => Some(i + 1),
            None => None,
        }
    }
}

/// The first catalog entry with the given numeric alias.
pub open spec fn find_by_id(cat: Seq<LanguageConfig>, id: u32) -> Option<int>
    decreases cat.len(),
{
    if cat.len() == 0 {
        None
    } else if cat[0].id == id {
        Some(0)
    } else {
        match find_by_id(cat.drop_first(), id) {
            Some(i) => Some(i + 1),
            None => None,
        }
    }
}

/// Deterministic lookup: the lower-cased tag first, then the numeric alias.
pub open spec fn lookup_spec(cat: Seq<LanguageConfig>, tag: Seq<u8>, id: Option<u32>) -> Option<
    int,
> {
    match find_by_tag(cat, tag) {
        Some(i) => Some(i),
        None => match id {
            Some(v) => find_by_id(cat, v),
            None => None,
        },
    }
}

proof fn lemma_find_by_tag_in_range(cat: Seq<LanguageConfig>, tag: Seq<u8>)
    ensures
        match find_by_tag(cat, tag) {
            Some(i) => 0 <= i < cat.len() && lower_bytes(tag) == cat[i].key.spec_bytes(),
            None => forall|j: int|
                0 <= j < cat.len() ==> lower_bytes(tag) != #[trigger] cat[j].key.spec_bytes(),
        },
    decreases cat.len(),
{
    if cat.len() > 0 && lower_bytes(tag) != cat[0].key.spec_bytes() {
        lemma_find_by_tag_in_range(cat.drop_first(), tag);
        assert forall|j: int|
            0 <= j < cat.len() && find_by_tag(cat.drop_first(), tag) is None implies lower_bytes(
            tag,
        ) != #[trigger] cat[j].key.spec_bytes() by {
            if j > 0 {
                assert(cat.drop_first()[j - 1] == cat[j]);
            }
        }
    }
}

proof fn lemma_find_by_id_in_range(cat: Seq<LanguageConfig>, id: u32)
    ensures
        match find_by_id(cat, id) {
            Some(i) => 0 <= i < cat.len() && cat[i].id == id,
            None => forall|j: int| 0 <= j < cat.len() ==> (#[trigger] cat[j].id) != id,
        },
    decreases cat.len(),
{
    if cat.len() > 0 && cat[0].id != id {
        lemma_find_by_id_in_range(cat.drop_first(), id);
        assert forall|j: int|
            0 <= j < cat.len() && find_by_id(cat.drop_first(), id) is None implies (
        #[trigger] cat[j].id) != id by {
            if j > 0 {
                assert(cat.drop_first()[j - 1] == cat[j]);
            }
        }
    }
}

/// The read-only language catalog.
pub struct LanguageCatalog {
    configs: Vec<LanguageConfig>,
}

impl LanguageCatalog {
    /// The recipes, in catalog order.
    pub closed spec fn view(&self) -> Seq<LanguageConfig> {
        self.configs@
    }

    /// Every recipe in the catalog is usable.
    pub open spec fn wf(&self) -> bool {
        forall|i: int| 0 <= i < self@.len() ==> (#[trigger] self@[i]).wf()
    }

    /// The catalog the engine ships with: Python, JavaScript, C++, C, Java,
    /// Go and Rust, under their usual numeric aliases.
    pub fn standard() -> (res: Self)
        ensures
            res.wf(),
            res@.len() == 7,
            res@[0].key@ == "python"@ && res@[0].id == 71,
            res@[1].key@ == "javascript"@ && res@[1].id == 63,
            res@[2].key@ == "cpp"@ && res@[2].id == 54,
            res@[3].key@ == "c"@ && res@[3].id == 50,
            res@[4].key@ == "java"@ && res@[4].id == 62,
            res@[5].key@ == "go"@ && res@[5].id == 60,
            res@[6].key@ == "rust"@ && res@[6].id == 73,
    {
        let mut configs: Vec<LanguageConfig> = Vec::new();
        configs.push(
            LanguageConfig {
                key: "python",
                id: 71,
                name: String::from_str("Python 3"),
                source_file: String::from_str("main.py"),
                compile_cmd: None,
                run_cmd: vec![String::from_str("python3"), String::from_str("main.py")],
                docker_image: Some(String::from_str("python:3.11-alpine")),
            },
        );
        configs.push(
            LanguageConfig {
                key: "javascript",
                id: 63,
                name: String::from_str("JavaScript (Node.js)"),
                source_file: String::from_str("main.js"),
                compile_cmd: None,
                run_cmd: vec![String::from_str("node"), String::from_str("main.js")],
                docker_image: Some(String::from_str("node:18-alpine")),
            },
        );
        configs.push(
            LanguageConfig {
                key: "cpp",
                id: 54,
                name: String::from_str("C++ (GCC)"),
                source_file: String::from_str("main.cpp"),
                compile_cmd: Some(
                    vec![
                        String::from_str("g++"),
                        String::from_str("-o"),
                        String::from_str("main"),
                        String::from_str("main.cpp"),
                        String::from_str("-std=c++17"),
                    ],
                ),
                run_cmd: vec![String::from_str("./main")],
                docker_image: Some(String::from_str("gcc:latest")),
            },
        );
        configs.push(
            LanguageConfig {
                key: "c",
                id: 50,
                name: String::from_str("C (GCC)"),
                source_file: String::from_str("main.c"),
                compile_cmd: Some(
                    vec![
                        String::from_str("gcc"),
                        String::from_str("-o"),
                        String::from_str("main"),
                        String::from_str("main.c"),
                        String::from_str("-std=c17"),
                        String::from_str("-lm"),
                    ],
                ),
                run_cmd: vec![String::from_str("./main")],
                docker_image: Some(String::from_str("gcc:latest")),
            },
        );
        configs.push(
            LanguageConfig {
                key: "java",
                id: 62,
                name: String::from_str("Java (OpenJDK)"),
                source_file: String::from_str("Main.java"),
                compile_cmd: Some(
                    vec![String::from_str("javac"), String::from_str("Main.java")],
                ),
                run_cmd: vec![String::from_str("java"), String::from_str("Main")],
                docker_image: Some(String::from_str("openjdk:17-alpine")),
            },
        );
        configs.push(
            LanguageConfig {
                key: "go",
                id: 60,
                name: String::from_str("Go"),
                source_file: String::from_str("main.go"),
                compile_cmd: None,
                run_cmd: vec![
                    String::from_str("go"),
                    String::from_str("run"),
                    String::from_str("main.go"),
                ],
                docker_image: Some(String::from_str("golang:1.21-alpine")),
            },
        );
        configs.push(
            LanguageConfig {
                key: "rust",
                id: 73,
                name: String::from_str("Rust"),
                source_file: String::from_str("main.rs"),
                compile_cmd: Some(
                    vec![
                        String::from_str("rustc"),
                        String::from_str("main.rs"),
                        String::from_str("-o"),
                        String::from_str("main"),
                    ],
                ),
                run_cmd: vec![String::from_str("./main")],
                docker_image: Some(String::from_str("rust:1.70-alpine")),
            },
        );
        LanguageCatalog { configs }
    }

    /// Find the recipe for a request's language tag and optional numeric
    /// alias: the first entry whose key equals the lower-cased tag, else the
    /// first entry with the alias.
    pub fn lookup(&self, language: &str, language_id: Option<u32>) -> (res: Option<
        &LanguageConfig,
    >)
        ensures
            match lookup_spec(self@, language.spec_bytes(), language_id) {
                Some(i) => 0 <= i < self@.len() && res is Some && *res->0 == self@[i],
                None => res is None,
            },
    {
        proof {
            lemma_find_by_tag_in_range(self@, language.spec_bytes());
        }
        let n = self.configs.len();
        let mut i: usize = 0;
        while i < n
            invariant
                n == self@.len(),
                0 <= i <= n,
                forall|j: int|
                    0 <= j < i ==> lower_bytes(language.spec_bytes()) != (
                #[trigger] self@[j]).key.spec_bytes(),
            decreases n - i,
        {
            let cfg = &self.configs[i];
            if matches_ignore_ascii_case(language, cfg.key) {
                proof {
                    lemma_tag_prefix_miss(self@, language.spec_bytes(), i as int);
                }
                return Some(cfg);
            }
            i = i + 1;
        }
        assert(find_by_tag(self@, language.spec_bytes()) is None);
        let id = match language_id {
            Some(v) => v,
            None => {
                return None;
            },
        };
        proof {
            lemma_find_by_id_in_range(self@, id);
        }
        let mut i: usize = 0;
        while i < n
            invariant
                n == self@.len(),
                0 <= i <= n,
                find_by_tag(self@, language.spec_bytes()) is None,
                language_id == Some(id),
                forall|j: int| 0 <= j < i ==> (#[trigger] self@[j]).id != id,
            decreases n - i,
        {
            let cfg = &self.configs[i];
            if cfg.id == id {
                proof {
                    lemma_id_prefix_miss(self@, id, i as int);
                }
                return Some(cfg);
            }
            i = i + 1;
        }
        None
    }
}

/// The languages advertised to clients, with display metadata.
pub fn supported_languages() -> (res: Vec<LanguageInfo>)
    ensures
        res@.len() == 5,
        res@[0].id == 71,
        res@[1].id == 63,
        res@[2].id == 54,
        res@[3].id == 50,
        res@[4].id == 73,
{
    let mut out: Vec<LanguageInfo> = Vec::new();
    out.push(
        LanguageInfo {
            id: 71,
            name: String::from_str("Python"),
            version: String::from_str("3.11"),
            compile_cmd: None,
            run_cmd: String::from_str("python3 main.py"),
        },
    );
    out.push(
        LanguageInfo {
            id: 63,
            name: String::from_str("JavaScript"),
            version: String::from_str("18.x"),
            compile_cmd: None,
            run_cmd: String::from_str("node main.js"),
        },
    );
    out.push(
        LanguageInfo {
            id: 54,
            name: String::from_str("C++"),
            version: String::from_str("GCC 11"),
            compile_cmd: Some(String::from_str("g++ -o main main.cpp")),
            run_cmd: String::from_str("./main"),
        },
    );
    out.push(
        LanguageInfo {
            id: 50,
            name: String::from_str("C"),
            version: String::from_str("GCC 11"),
            compile_cmd: Some(String::from_str("gcc -o main main.c")),
            run_cmd: String::from_str("./main"),
        },
    );
    out.push(
        LanguageInfo {
            id: 73,
            name: String::from_str("Rust"),
            version: String::from_str("1.70"),
            compile_cmd: Some(String::from_str("rustc main.rs -o main")),
            run_cmd: String::from_str("./main"),
        },
    );
    out
}

/// When no entry before `i` matches the tag and entry `i` does, the find
/// returns `i`.
proof fn lemma_tag_prefix_miss(cat: Seq<LanguageConfig>, tag: Seq<u8>, i: int)
    requires
        0 <= i < cat.len(),
        lower_bytes(tag) == cat[i].key.spec_bytes(),
        forall|j: int| 0 <= j < i ==> lower_bytes(tag) != (#[trigger] cat[j]).key.spec_bytes(),
    ensures
        find_by_tag(cat, tag) == Some(i),
    decreases i,
{
    if i > 0 {
        lemma_tag_prefix_miss(cat.drop_first(), tag, i - 1);
    }
}

/// When no entry before `i` has the alias and entry `i` does, the find
/// returns `i`.
proof fn lemma_id_prefix_miss(cat: Seq<LanguageConfig>, id: u32, i: int)
    requires
        0 <= i < cat.len(),
        cat[i].id == id,
        forall|j: int| 0 <= j < i ==> (#[trigger] cat[j]).id != id,
    ensures
        find_by_id(cat, id) == Some(i),
    decreases i,
{
    if i > 0 {
        lemma_id_prefix_miss(cat.drop_first(), id, i - 1);
    }
}

} // verus!
