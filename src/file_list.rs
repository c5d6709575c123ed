//! Cached project file lists: cache keys and language filters.

use vstd::prelude::*;
use crate::text::{extend_with_literals, literal_texts, lower_of, lowercase, owned_strings, same_text, texts};

verus! {

/// The files of a directory, respecting ignore patterns, as listed once.
#[derive(Debug, Clone)]
pub struct FileList {
    /// The files found, as paths.
    pub files: Vec<String>,
    /// When the list was made, in milliseconds since the Unix epoch.
    pub created_at: u64,
}

/// The file extensions of a programming language, by its lower-case name.
pub open spec fn extensions_of(language: Seq<char>) -> Seq<Seq<char>> {
    if language == "rust"@ {
        seq![".rs"@]
    } else if language == "javascript"@ {
        seq![".js"@, ".jsx"@, ".mjs"@]
    } else if language == "typescript"@ {
        seq![".ts"@, ".tsx"@]
    } else if language == "python"@ {
        seq![".py"@, ".pyw"@, ".pyi"@]
    } else if language == "go"@ {
        seq![".go"@]
    } else if language == "c"@ {
        seq![".c"@, ".h"@]
    } else if language == "cpp"@ {
        seq![".cpp"@, ".cc"@, ".cxx"@, ".hpp"@, ".hxx"@, ".h"@]
    } else if language == "java"@ {
        seq![".java"@]
    } else if language == "ruby"@ {
        seq![".rb"@, ".rake"@]
    } else if language == "php"@ {
        seq![".php"@]
    } else if language == "swift"@ {
        seq![".swift"@]
    } else if language == "csharp"@ {
        seq![".cs"@]
    } else {
        seq![]
    }
}

/// The file extensions of a programming language, given its lower-case
/// name; none for a language not known here.
pub fn extensions_for_language(lower: &str) -> (r: Vec<String>)
    ensures
        texts(r@) == extensions_of(lower@),
{
    let l = lower;
    let parts: &[&str] = if same_text(l, "rust") {
        &[".rs"]
    } else if same_text(l, "javascript") {
        &[".js", ".jsx", ".mjs"]
    } else if same_text(l, "typescript") {
        &[".ts", ".tsx"]
    } else if same_text(l, "python") {
        &[".py", ".pyw", ".pyi"]
    } else if same_text(l, "go") {
        &[".go"]
    } else if same_text(l, "c") {
        &[".c", ".h"]
    } else if same_text(l, "cpp") {
        &[".cpp", ".cc", ".cxx", ".hpp", ".hxx", ".h"]
    } else if same_text(l, "java") {
        &[".java"]
    } else if same_text(l, "ruby") {
        &[".rb", ".rake"]
    } else if same_text(l, "php") {
        &[".php"]
    } else if same_text(l, "swift") {
        &[".swift"]
    } else if same_text(l, "csharp") {
        &[".cs"]
    } else {
        &[]
    };
    let v = owned_strings(parts);
    assert(literal_texts(parts@) =~= extensions_of(lower@));
    v
}

/// The file extensions of a programming language (its name in any case);
/// none for a language not known here.
pub fn get_language_extensions(language: &str) -> (r: Vec<String>)
    ensures
        texts(r@) == extensions_of(lower_of(language@)),
{
    let lower = lowercase(language);
    extensions_for_language(lower.as_str())
}

/// One step of the cache-key hash over a byte.
pub open spec fn hash_step(h: u64, b: u8) -> u64 {
    vstd::wrapping::u64_specs::wrapping_add(vstd::wrapping::u64_specs::wrapping_mul(h, 31), b as u64)
}

/// The hash `h` carried over the bytes `bs`.
pub open spec fn hash_bytes(h: u64, bs: Seq<u8>) -> u64
    decreases bs.len(),
{
    if bs.len() == 0 {
        h
    } else {
        hash_step(hash_bytes(h, bs.drop_last()), bs.last())
    }
}

/// The hash `h` carried over the UTF-8 bytes of each pattern in turn.
pub open spec fn hash_patterns(h: u64, patterns: Seq<Seq<u8>>) -> u64
    decreases patterns.len(),
{
    if patterns.len() == 0 {
        h
    } else {
        hash_bytes(hash_patterns(h, patterns.drop_last()), patterns.last())
    }
}

/// The character of a hexadecimal digit.
pub open spec fn hex_char(d: nat) -> char {
    seq!['0', '1', '2', '3', '4', '5', '6', '7', '8', '9', 'a', 'b', 'c', 'd', 'e', 'f'][d as int]
}

/// The lower-case hexadecimal digits of `n`, without leading zeros.
pub open spec fn hex_digits(n: nat) -> Seq<char>
    decreases n,
{
    if n < 16 {
        seq![hex_char(n)]
    } else {
        hex_digits(n / 16).push(hex_char(n % 16))
    }
}

/// Appends the lower-case hexadecimal digits of `n` to `out`.
pub fn push_hex(out: &mut String, n: u64)
    ensures
        final(out)@ == old(out)@ + hex_digits(n as nat),
    decreases n,
{
    let digits = "0123456789abcdef";
    proof {
        reveal_strlit("0123456789abcdef");
    }
    assert(digits@ =~= seq!['0', '1', '2', '3', '4', '5', '6', '7', '8', '9', 'a', 'b', 'c', 'd', 'e', 'f']);
    if n >= 16 {
        push_hex(out, n / 16);
    }
    let d = (n % 16) as usize;
    let piece = digits.substring_char(d, d + 1);
    assert(piece@ =~= seq![hex_char(n as nat % 16)]);
    out.append(piece);
    assert(final(out)@ =~= old(out)@ + hex_digits(n as nat));
}

/// The UTF-8 bytes of each pattern.
pub open spec fn pattern_bytes(patterns: Seq<String>) -> Seq<Seq<u8>> {
    patterns.map_values(|p: String| vstd::utf8::encode_utf8(p@))
}

/// The hash of a list of ignore patterns.
pub fn hash_ignore_patterns(patterns: &Vec<String>) -> (r: u64)
    ensures
        r == hash_patterns(0, pattern_bytes(patterns@)),
{
    let mut h: u64 = 0;
    let mut i: usize = 0;
    while i < patterns.len()
        invariant
            0 <= i <= patterns@.len(),
            h == hash_patterns(0, pattern_bytes(patterns@.take(i as int))),
        decreases patterns@.len() - i,
    {
        let bytes = patterns[i].as_str().as_bytes();
        let ghost start = h;
        let mut k: usize = 0;
        while k < bytes.len()
            invariant
                0 <= k <= bytes@.len(),
                h == hash_bytes(start, bytes@.take(k as int)),
            decreases bytes@.len() - k,
        {
            h = h.wrapping_mul(31).wrapping_add(bytes[k] as u64);
            proof {
                assert(bytes@.take(k as int + 1).drop_last() =~= bytes@.take(k as int));
            }
            k = k + 1;
        }
        proof {
            assert(bytes@.take(bytes@.len() as int) =~= bytes@);
            let ps = pattern_bytes(patterns@.take(i as int + 1));
            assert(ps.drop_last() =~= pattern_bytes(patterns@.take(i as int)));
        }
        i = i + 1;
    }
    proof {
        assert(patterns@.take(patterns@.len() as int) =~= patterns@);
    }
    h
}

/// The cache key of a file list: the path, whether tests are included, and
/// a hash of the custom ignore patterns.
pub open spec fn cache_key(path: Seq<char>, allow_tests: bool, custom_ignores: Seq<String>) -> Seq<char> {
    path + "_"@ + (if allow_tests { "with_tests"@ } else { "no_tests"@ }) + "_"@ + (if custom_ignores.len() == 0 {
        "no_ignores"@
    } else {
        "ignores_"@ + hex_digits(hash_patterns(0, pattern_bytes(custom_ignores)) as nat)
    })
}

/// The cache key of the file list of `path` under the given options.
pub fn generate_cache_key(path: &str, allow_tests: bool, custom_ignores: &Vec<String>) -> (r: String)
    ensures
        r@ == cache_key(path@, allow_tests, custom_ignores@),
{
    let mut key = String::from_str(path);
    key.append("_");
    if allow_tests {
        key.append("with_tests");
    } else {
        key.append("no_tests");
    }
    key.append("_");
    if custom_ignores.len() == 0 {
        key.append("no_ignores");
    } else {
        key.append("ignores_");
        let h = hash_ignore_patterns(custom_ignores);
        push_hex(&mut key, h);
    }
    key
}

} // verus!

verus! {

/// Directories and file patterns never listed.
pub open spec fn common_ignore_patterns() -> Seq<Seq<char>> {
    seq![
        "node_modules"@,
        "vendor"@,
        "target"@,
        "dist"@,
        "build"@,
        ".git"@,
        ".svn"@,
        ".hg"@,
        ".idea"@,
        ".vscode"@,
        "__pycache__"@,
        "*.pyc"@,
        "*.pyo"@,
        "*.class"@,
        "*.o"@,
        "*.obj"@,
        "*.a"@,
        "*.lib"@,
        "*.so"@,
        "*.dylib"@,
        "*.dll"@,
        "*.exe"@,
        "*.out"@,
        "*.app"@,
        "*.jar"@,
        "*.war"@,
        "*.ear"@,
        "*.zip"@,
        "*.tar.gz"@,
        "*.rar"@,
        "*.log"@,
        "*.tmp"@,
        "*.temp"@,
        "*.swp"@,
        "*.swo"@,
        "*.bak"@,
        "*.orig"@,
        "*.DS_Store"@,
        "Thumbs.db"@,
        "*.yml"@,
        "*.yaml"@,
        "*.json"@,
        "*.tconf"@,
        "*.conf"@,
        "go.sum"@,
    ]
}

/// Test file patterns, left out unless tests are allowed.
pub open spec fn test_ignore_patterns() -> Seq<Seq<char>> {
    seq![
        "*_test.rs"@,
        "*_tests.rs"@,
        "test_*.rs"@,
        "tests.rs"@,
        "*.spec.js"@,
        "*.test.js"@,
        "*.spec.ts"@,
        "*.test.ts"@,
        "*.spec.jsx"@,
        "*.test.jsx"@,
        "*.spec.tsx"@,
        "*.test.tsx"@,
        "test_*.py"@,
        "*_test.go"@,
        "test_*.c"@,
        "*_test.c"@,
        "*_test.cpp"@,
        "*_test.cc"@,
        "*_test.cxx"@,
        "*Test.java"@,
        "*_test.rb"@,
        "test_*.rb"@,
        "*_spec.rb"@,
        "*Test.php"@,
        "test_*.php"@,
        "**/tests/**"@,
        "**/test/**"@,
        "**/__tests__/**"@,
        "**/__test__/**"@,
        "**/spec/**"@,
        "**/specs/**"@,
    ]
}

/// The ignore patterns of a file listing: the common ones, the test patterns
/// unless tests are allowed, then the custom patterns.
pub open spec fn ignore_patterns(allow_tests: bool, custom_ignores: Seq<String>) -> Seq<Seq<char>> {
    common_ignore_patterns() + (if allow_tests {
        Seq::empty()
    } else {
        test_ignore_patterns()
    }) + texts(custom_ignores)
}

/// The ignore patterns of a file listing, in order.
pub fn build_ignore_patterns(allow_tests: bool, custom_ignores: &Vec<String>) -> (r: Vec<String>)
    ensures
        texts(r@) == ignore_patterns(allow_tests, custom_ignores@),
{
    let common: &[&str] = &[
        "node_modules",
        "vendor",
        "target",
        "dist",
        "build",
        ".git",
        ".svn",
        ".hg",
        ".idea",
        ".vscode",
        "__pycache__",
        "*.pyc",
        "*.pyo",
        "*.class",
        "*.o",
        "*.obj",
        "*.a",
        "*.lib",
        "*.so",
        "*.dylib",
        "*.dll",
        "*.exe",
        "*.out",
        "*.app",
        "*.jar",
        "*.war",
        "*.ear",
        "*.zip",
        "*.tar.gz",
        "*.rar",
        "*.log",
        "*.tmp",
        "*.temp",
        "*.swp",
        "*.swo",
        "*.bak",
        "*.orig",
        "*.DS_Store",
        "Thumbs.db",
        "*.yml",
        "*.yaml",
        "*.json",
        "*.tconf",
        "*.conf",
        "go.sum",
    ];
    let tests: &[&str] = &[
        "*_test.rs",
        "*_tests.rs",
        "test_*.rs",
        "tests.rs",
        "*.spec.js",
        "*.test.js",
        "*.spec.ts",
        "*.test.ts",
        "*.spec.jsx",
        "*.test.jsx",
        "*.spec.tsx",
        "*.test.tsx",
        "test_*.py",
        "*_test.go",
        "test_*.c",
        "*_test.c",
        "*_test.cpp",
        "*_test.cc",
        "*_test.cxx",
        "*Test.java",
        "*_test.rb",
        "test_*.rb",
        "*_spec.rb",
        "*Test.php",
        "test_*.php",
        "**/tests/**",
        "**/test/**",
        "**/__tests__/**",
        "**/__test__/**",
        "**/spec/**",
        "**/specs/**",
    ];
    let mut v: Vec<String> = Vec::new();
    extend_with_literals(&mut v, common);
    assert(literal_texts(common@) =~= common_ignore_patterns());
    if !allow_tests {
        extend_with_literals(&mut v, tests);
        assert(literal_texts(tests@) =~= test_ignore_patterns());
    }
    let ghost before = v@;
    let mut i: usize = 0;
    while i < custom_ignores.len()
        invariant
            0 <= i <= custom_ignores@.len(),
            texts(v@) == texts(before) + texts(custom_ignores@.take(i as int)),
        decreases custom_ignores@.len() - i,
    {
        let ghost prev = v@;
        v.push(custom_ignores[i].clone());
        proof {
            assert(texts(v@) =~= texts(prev) + seq![custom_ignores@[i as int]@]);
            assert(texts(custom_ignores@.take(i as int + 1)) =~= texts(custom_ignores@.take(i as int)) + seq![custom_ignores@[i as int]@]);
        }
        i = i + 1;
    }
    proof {
        assert(custom_ignores@.take(custom_ignores@.len() as int) =~= custom_ignores@);
        assert(texts(v@) =~= ignore_patterns(allow_tests, custom_ignores@));
    }
    v
}

/// The override glob that excludes `pattern` at any depth.
pub fn exclusion_glob(pattern: &str) -> (r: String)
    ensures
        r@ == "!**/"@ + pattern@,
{
    let mut g = String::from_str("!**/");
    g.append(pattern);
    g
}

/// The extension of a path's file name, as std's `Path::extension` gives it.
pub uninterp spec fn path_extension_of(path: Seq<char>) -> Option<Seq<char>>;

/// Relies on std's `Path::extension`: the extension of the file name, if it
/// has one; the result depends on the path alone.
#[verifier::external_body]
fn path_extension(path: &str) -> (r: Option<String>)
    ensures
        match r {
            Some(e) => path_extension_of(path@) == Some(e@),
            None => path_extension_of(path@) is None,
        },
{
    match std::path::Path::new(path).extension() {
        Some(e) => Some(e.to_string_lossy().into_owned()),
        None => None,
    }
}

/// The path's extension, with a leading dot, is one of `extensions`.
pub open spec fn has_listed_extension(path: Seq<char>, extensions: Seq<Seq<char>>) -> bool {
    match path_extension_of(path) {
        Some(e) => extensions.contains("."@ + e),
        None => false,
    }
}

/// The files kept by a language filter: all of them when the language has no
/// known extensions, otherwise those with one of its extensions, in order.
pub open spec fn filtered_files(files: Seq<Seq<char>>, extensions: Seq<Seq<char>>) -> Seq<Seq<char>> {
    if extensions.len() == 0 {
        files
    } else {
        files.filter(|f: Seq<char>| has_listed_extension(f, extensions))
    }
}

/// Whether `e` is one of `extensions`.
fn listed(extensions: &Vec<String>, e: &String) -> (r: bool)
    ensures
        r == texts(extensions@).contains(e@),
{
    let mut i: usize = 0;
    while i < extensions.len()
        invariant
            0 <= i <= extensions@.len(),
            forall|j: int| 0 <= j < i ==> #[trigger] extensions@[j]@ != e@,
        decreases extensions@.len() - i,
    {
        if extensions[i] == *e {
            assert(texts(extensions@)[i as int] == e@);
            return true;
        }
        i = i + 1;
    }
    proof {
        if texts(extensions@).contains(e@) {
            let j = choose|j: int| 0 <= j < texts(extensions@).len() && texts(extensions@)[j] == e@;
            assert(extensions@[j]@ == e@);
        }
    }
    false
}

/// Keeps the files with one of `extensions` (each with its leading dot); an
/// empty list of extensions keeps every file.
pub fn filter_by_extensions(files: &Vec<String>, extensions: &Vec<String>) -> (r: Vec<String>)
    ensures
        texts(r@) == filtered_files(texts(files@), texts(extensions@)),
{
    let mut out: Vec<String> = Vec::new();
    let all = extensions.len() == 0;
    let mut i: usize = 0;
    while i < files.len()
        invariant
            0 <= i <= files@.len(),
            all == (extensions@.len() == 0),
            texts(out@) == filtered_files(texts(files@.take(i as int)), texts(extensions@)),
        decreases files@.len() - i,
    {
        let ghost prev = out@;
        let keep = if all {
            true
        } else {
            match path_extension(files[i].as_str()) {
                Some(e) => {
                    let mut dotted = String::from_str(".");
                    dotted.append(e.as_str());
                    listed(extensions, &dotted)
                },
                None => false,
            }
        };
        proof {
            let t = texts(files@.take(i as int + 1));
            assert(t.drop_last() =~= texts(files@.take(i as int)));
            assert(t.last() == files@[i as int]@);
            reveal(Seq::filter);
        }
        if keep {
            out.push(files[i].clone());
            proof {
                assert(texts(out@) =~= texts(prev).push(files@[i as int]@));
            }
        }
        i = i + 1;
    }
    proof {
        assert(files@.take(files@.len() as int) =~= files@);
    }
    out
}

} // verus!

verus! {

/// `needle` occurs in `hay` as a contiguous run of characters.
pub open spec fn occurs_in(needle: Seq<char>, hay: Seq<char>) -> bool {
    exists|i: int| 0 <= i <= hay.len() - needle.len() && #[trigger] hay.subrange(i, i + needle.len()) == needle
}

/// Relies on std's `str::contains` with a string pattern: whether `needle`
/// occurs in `hay`.
#[verifier::external_body]
fn text_contains(hay: &str, needle: &str) -> (r: bool)
    ensures
        r == occurs_in(needle@, hay@),
{
    hay.contains(needle)
}

/// A term token and a path token match when either occurs in the other.
pub open spec fn tokens_overlap(term_token: Seq<char>, path_token: Seq<char>) -> bool {
    occurs_in(term_token, path_token) || occurs_in(path_token, term_token)
}

/// Some token of the term matches some token of the path.
pub open spec fn term_matches(term_tokens: Seq<Seq<char>>, path_tokens: Seq<Seq<char>>) -> bool {
    exists|a: int, b: int|
        0 <= a < term_tokens.len() && 0 <= b < path_tokens.len() && #[trigger] tokens_overlap(
            term_tokens[a],
            path_tokens[b],
        )
}

/// Whether a query term, as tokens, matches a file path, as tokens.
pub fn term_matches_path(term_tokens: &Vec<String>, path_tokens: &Vec<String>) -> (r: bool)
    ensures
        r == term_matches(texts(term_tokens@), texts(path_tokens@)),
{
    let mut a: usize = 0;
    while a < term_tokens.len()
        invariant
            0 <= a <= term_tokens@.len(),
            forall|x: int, y: int|
                0 <= x < a && 0 <= y < path_tokens@.len() ==> !#[trigger] tokens_overlap(
                    term_tokens@[x]@,
                    path_tokens@[y]@,
                ),
        decreases term_tokens@.len() - a,
    {
        let mut b: usize = 0;
        while b < path_tokens.len()
            invariant
                0 <= a < term_tokens@.len(),
                0 <= b <= path_tokens@.len(),
                forall|x: int, y: int|
                    0 <= x < a && 0 <= y < path_tokens@.len() ==> !#[trigger] tokens_overlap(
                        term_tokens@[x]@,
                        path_tokens@[y]@,
                    ),
                forall|y: int| 0 <= y < b ==> !#[trigger] tokens_overlap(term_tokens@[a as int]@, path_tokens@[y]@),
            decreases path_tokens@.len() - b,
        {
            let t = term_tokens[a].as_str();
            let p = path_tokens[b].as_str();
            if text_contains(p, t) || text_contains(t, p) {
                assert(tokens_overlap(texts(term_tokens@)[a as int], texts(path_tokens@)[b as int]));
                return true;
            }
            b = b + 1;
        }
        a = a + 1;
    }
    proof {
        if term_matches(texts(term_tokens@), texts(path_tokens@)) {
            let (x, y) = choose|x: int, y: int|
                0 <= x < texts(term_tokens@).len() && 0 <= y < texts(path_tokens@).len() && #[trigger] tokens_overlap(
                    texts(term_tokens@)[x],
                    texts(path_tokens@)[y],
                );
            assert(!tokens_overlap(term_tokens@[x]@, path_tokens@[y]@));
        }
    }
    false
}

} // verus!

verus! {

/// A query term, split into tokens, with its index among the query's terms.
#[derive(Debug, Clone)]
pub struct QueryTerm {
    pub tokens: Vec<String>,
    pub index: usize,
}

/// The indices of the terms, in order, that match a path given as tokens.
pub open spec fn matched_indices(terms: Seq<QueryTerm>, path_tokens: Seq<Seq<char>>) -> Seq<usize>
    decreases terms.len(),
{
    if terms.len() == 0 {
        seq![]
    } else {
        let rest = matched_indices(terms.drop_last(), path_tokens);
        if term_matches(texts(terms.last().tokens@), path_tokens) {
            rest.push(terms.last().index)
        } else {
            rest
        }
    }
}

/// The indices of the query terms, in order, whose tokens match the tokens
/// of a file path.
pub fn matched_term_indices(terms: &Vec<QueryTerm>, path_tokens: &Vec<String>) -> (r: Vec<usize>)
    ensures
        r@ == matched_indices(terms@, texts(path_tokens@)),
{
    let mut out: Vec<usize> = Vec::new();
    let mut i: usize = 0;
    while i < terms.len()
        invariant
            0 <= i <= terms@.len(),
            out@ == matched_indices(terms@.take(i as int), texts(path_tokens@)),
        decreases terms@.len() - i,
    {
        proof {
            assert(terms@.take(i as int + 1).drop_last() =~= terms@.take(i as int));
        }
        if term_matches_path(&terms[i].tokens, path_tokens) {
            out.push(terms[i].index);
        }
        i = i + 1;
    }
    proof {
        assert(terms@.take(terms@.len() as int) =~= terms@);
    }
    out
}

} // verus!
