//! Scoped file-context rules: which paths may be read (scope, extension
//! allowlist, size cap), one-shot confirmation tokens for full reads, and
//! file previews.  The file system itself is read outside the crate; these
//! functions decide, over plain values, what those reads may do.

use vstd::prelude::*;
use vstd::string::*;
use crate::text;

verus! {

/// How long a confirmation token stays valid: five minutes.
pub const TOKEN_VALIDITY_MS: i64 = 300000;

/// Configuration for reading files.
#[derive(Clone, Debug)]
pub struct ContextReaderConfig {
    pub allowed_extensions: Vec<String>,
    pub max_file_size: usize,
    pub current_scope: Option<String>,
}

impl Default for ContextReaderConfig {
    /// The default allowlist: nine source and text extensions, a one
    /// megabyte cap, and no scope.
    fn default() -> (r: ContextReaderConfig)
        ensures
            r.allowed_extensions@.len() == 9,
            r.allowed_extensions@[0]@ == "py"@,
            r.allowed_extensions@[1]@ == "js"@,
            r.allowed_extensions@[2]@ == "ts"@,
            r.allowed_extensions@[3]@ == "md"@,
            r.allowed_extensions@[4]@ == "txt"@,
            r.allowed_extensions@[5]@ == "json"@,
            r.allowed_extensions@[6]@ == "toml"@,
            r.allowed_extensions@[7]@ == "yaml"@,
            r.allowed_extensions@[8]@ == "yml"@,
            r.max_file_size == 1000000,
            r.current_scope is None,
    {
        let mut allowed_extensions: Vec<String> = Vec::new();
        allowed_extensions.push("py".to_owned());
        allowed_extensions.push("js".to_owned());
        allowed_extensions.push("ts".to_owned());
        allowed_extensions.push("md".to_owned());
        allowed_extensions.push("txt".to_owned());
        allowed_extensions.push("json".to_owned());
        allowed_extensions.push("toml".to_owned());
        allowed_extensions.push("yaml".to_owned());
        allowed_extensions.push("yml".to_owned());
        ContextReaderConfig { allowed_extensions, max_file_size: 1000000, current_scope: None }
    }
}

/// Copies an optional string.
fn clone_opt_string(o: &Option<String>) -> (r: Option<String>)
    ensures
        r == *o,
{
    match o {
        Some(s) => Some(s.clone()),
        None => None,
    }
}

/// Copies a configuration, string by string.
pub fn clone_config(c: &ContextReaderConfig) -> (r: ContextReaderConfig)
    ensures
        r.allowed_extensions@ == c.allowed_extensions@,
        r.max_file_size == c.max_file_size,
        r.current_scope == c.current_scope,
{
    let n = c.allowed_extensions.len();
    let mut allowed_extensions: Vec<String> = Vec::new();
    let mut k: usize = 0;
    while k < n
        invariant
            k <= n,
            n == c.allowed_extensions@.len(),
            allowed_extensions@.len() == k,
            forall|j: int| 0 <= j < k ==> allowed_extensions@[j] == c.allowed_extensions@[j],
        decreases n - k,
    {
        allowed_extensions.push(c.allowed_extensions[k].clone());
        k = k + 1;
    }
    proof {
        assert(allowed_extensions@ =~= c.allowed_extensions@);
    }
    ContextReaderConfig {
        allowed_extensions,
        max_file_size: c.max_file_size,
        current_scope: clone_opt_string(&c.current_scope),
    }
}

/// The index of the last occurrence of a character, or -1 when it does not
/// occur.
pub open spec fn last_index(s: Seq<char>, c: char) -> int
    decreases s.len(),
{
    if s.len() == 0 {
        -1
    } else if s.last() == c {
        s.len() - 1
    } else {
        last_index(s.drop_last(), c)
    }
}

/// What the last occurrence means: it is in range, it carries the
/// character, and nothing after it does.
pub proof fn lemma_last_index(s: Seq<char>, c: char)
    ensures
        -1 <= last_index(s, c) < s.len(),
        last_index(s, c) >= 0 ==> s[last_index(s, c)] == c,
        forall|j: int| last_index(s, c) < j < s.len() ==> s[j] != c,
    decreases s.len(),
{
    if s.len() > 0 && s.last() != c {
        lemma_last_index(s.drop_last(), c);
        assert forall|j: int| last_index(s, c) < j < s.len() implies s[j] != c by {
            if j < s.len() - 1 {
                assert(s.drop_last()[j] == s[j]);
            }
        }
    }
}

/// A scan that saw the character at `k` and nowhere later has found the
/// last occurrence.
pub proof fn lemma_last_index_at(s: Seq<char>, c: char, k: int)
    requires
        0 <= k < s.len(),
        s[k] == c,
        forall|j: int| k < j < s.len() ==> s[j] != c,
    ensures
        last_index(s, c) == k,
    decreases s.len(),
{
    if s.len() - 1 > k {
        assert forall|j: int| k < j < s.drop_last().len() implies s.drop_last()[j] != c by {
            assert(s.drop_last()[j] == s[j]);
        }
        lemma_last_index_at(s.drop_last(), c, k);
    }
}

/// A scan that never saw the character has no last occurrence.
pub proof fn lemma_last_index_none(s: Seq<char>, c: char)
    requires
        forall|j: int| 0 <= j < s.len() ==> s[j] != c,
    ensures
        last_index(s, c) == -1,
    decreases s.len(),
{
    if s.len() > 0 {
        assert forall|j: int| 0 <= j < s.drop_last().len() implies s.drop_last()[j] != c by {
            assert(s.drop_last()[j] == s[j]);
        }
        lemma_last_index_none(s.drop_last(), c);
    }
}

/// Finds the last occurrence of a character.
fn last_index_exec(s: &str, c: char) -> (r: Option<usize>)
    ensures
        match r {
            Some(k) => k == last_index(s@, c),
            None => last_index(s@, c) == -1,
        },
{
    let len = s.unicode_len();
    let mut best: Option<usize> = None;
    let mut i: usize = 0;
    while i < len
        invariant
            i <= len,
            len == s@.len(),
            match best {
                Some(k) => k < i && s@[k as int] == c && forall|j: int| k < j < i ==> s@[j] != c,
                None => forall|j: int| 0 <= j < i ==> s@[j] != c,
            },
        decreases len - i,
    {
        if s.get_char(i) == c {
            best = Some(i);
        }
        i = i + 1;
    }
    proof {
        match best {
            Some(k) => lemma_last_index_at(s@, c, k as int),
            None => lemma_last_index_none(s@, c),
        }
    }
    best
}

/// The extension of a path: the text after the last dot of the final path
/// component, provided that dot is not the component's first character.
/// A component without a dot, or a hidden file like ".profile", has none.
pub open spec fn extension_of(path: Seq<char>) -> Option<Seq<char>> {
    let name_start = last_index(path, '/') + 1;
    let dot = last_index(path, '.');
    if dot > name_start {
        Some(path.skip(dot + 1))
    } else {
        None
    }
}

/// Extracts a path's extension.
pub fn extension_string(path: &str) -> (r: Option<String>)
    ensures
        match r {
            Some(x) => extension_of(path@) matches Some(e) && x@ == e,
            None => extension_of(path@) is None,
        },
{
    let len = path.unicode_len();
    proof {
        lemma_last_index(path@, '/');
        lemma_last_index(path@, '.');
    }
    let slash = last_index_exec(path, '/');
    let name_start: usize = match slash {
        Some(k) => k + 1,
        None => 0,
    };
    let dot = last_index_exec(path, '.');
    match dot {
        Some(d) => {
            if d > name_start {
                Some(path.substring_char(d + 1, len).to_owned())
            } else {
                None
            }
        },
        None => None,
    }
}

/// The Unicode lowercasing of a string; the result depends on the
/// characters alone.
pub uninterp spec fn lower_of(s: Seq<char>) -> Seq<char>;

/// Relies on str::to_lowercase.
#[verifier::external_body]
fn lowercase(s: &str) -> (r: String)
    ensures
        r@ == lower_of(s@),
        s@.len() == 0 ==> r@.len() == 0,
{
    s.to_lowercase()
}

/// Whether a path's extension passes the allowlist: a path without an
/// extension always passes, one with an extension passes when its
/// lowercased extension is listed.
pub open spec fn extension_allowed(allowed: Seq<Seq<char>>, path: Seq<char>) -> bool {
    match extension_of(path) {
        None => true,
        Some(e) => exists|k: int| 0 <= k < allowed.len() && allowed[k] == lower_of(e),
    }
}

/// The views of a list of strings.
pub open spec fn string_views(v: Seq<String>) -> Seq<Seq<char>> {
    v.map_values(|s: String| s@)
}

/// Checks a path's extension against the allowlist.
pub fn is_allowed_extension(config: &ContextReaderConfig, path: &str) -> (r: bool)
    ensures
        r == extension_allowed(string_views(config.allowed_extensions@), path@),
{
    match extension_string(path) {
        None => true,
        Some(ext) => {
            let low = lowercase(ext.as_str());
            let n = config.allowed_extensions.len();
            let mut k: usize = 0;
            while k < n
                invariant
                    k <= n,
                    n == config.allowed_extensions@.len(),
                    low@ == lower_of(ext@),
                    extension_of(path@) matches Some(e) && ext@ == e,
                    forall|j: int|
                        0 <= j < k ==> string_views(config.allowed_extensions@)[j] != low@,
                decreases n - k,
            {
                if config.allowed_extensions[k] == low {
                    proof {
                        assert(string_views(config.allowed_extensions@)[k as int] == low@);
                    }
                    return true;
                }
                k = k + 1;
            }
            false
        },
    }
}

/// Whether a path lies under a scope, comparing whole path components: the
/// scope must be a prefix that ends at a component boundary.
pub open spec fn in_scope(path: Seq<char>, scope: Seq<char>) -> bool {
    scope.len() == 0 || (path.len() >= scope.len() && path.take(scope.len() as int) == scope && (
    path.len() == scope.len() || path[scope.len() as int] == '/' || scope.last() == '/'))
}

/// Checks that a path lies under the configured scope; with no scope set,
/// every path passes.
pub fn is_in_scope(config: &ContextReaderConfig, path: &str) -> (r: bool)
    ensures
        r == match config.current_scope {
            Some(sc) => in_scope(path@, sc@),
            None => true,
        },
{
    match &config.current_scope {
        None => true,
        Some(sc) => {
            let scope_len = sc.as_str().unicode_len();
            let path_len = path.unicode_len();
            if scope_len == 0 {
                return true;
            }
            if path_len < scope_len {
                return false;
            }
            if !text::str_starts_with(path, sc.as_str()) {
                return false;
            }
            if path_len == scope_len {
                return true;
            }
            if path.get_char(scope_len) == '/' {
                return true;
            }
            sc.as_str().get_char(scope_len - 1) == '/'
        },
    }
}

/// Why a read was refused.
#[derive(Clone, Copy, PartialEq, Eq, Structural, Debug)]
pub enum ContextError {
    /// The path lies outside the configured scope.
    OutsideScope,
    /// The path's extension is not on the allowlist.
    ExtensionNotAllowed,
    /// The file is larger than the configured cap.
    TooLarge,
}

/// Whether a path passes the configured scope.
pub open spec fn scope_ok(config: ContextReaderConfig, path: Seq<char>) -> bool {
    match config.current_scope {
        Some(sc) => in_scope(path, sc@),
        None => true,
    }
}

/// The security checks before a read, in order: scope, then extension, then
/// size.
pub fn validate_read(config: &ContextReaderConfig, path: &str, size_bytes: u64) -> (r: Result<
    (),
    ContextError,
>)
    ensures
        !scope_ok(*config, path@) ==> r == Err::<(), ContextError>(ContextError::OutsideScope),
        scope_ok(*config, path@) && !extension_allowed(
            string_views(config.allowed_extensions@),
            path@,
        ) ==> r == Err::<(), ContextError>(ContextError::ExtensionNotAllowed),
        scope_ok(*config, path@) && extension_allowed(
            string_views(config.allowed_extensions@),
            path@,
        ) && size_bytes > config.max_file_size as u64 ==> r == Err::<(), ContextError>(
            ContextError::TooLarge,
        ),
        scope_ok(*config, path@) && extension_allowed(
            string_views(config.allowed_extensions@),
            path@,
        ) && size_bytes <= config.max_file_size as u64 ==> r == Ok::<(), ContextError>(()),
{
    if !is_in_scope(config, path) {
        return Err(ContextError::OutsideScope);
    }
    if !is_allowed_extension(config, path) {
        return Err(ContextError::ExtensionNotAllowed);
    }
    if size_bytes > config.max_file_size as u64 {
        return Err(ContextError::TooLarge);
    }
    Ok(())
}

/// A file as handed to a caller.
#[derive(Clone, Debug)]
pub struct FileContent {
    pub path: String,
    pub content: String,
    pub size: usize,
    pub extension: String,
}

/// A file preview: the first lines only.
#[derive(Clone, Debug)]
pub struct FilePreview {
    pub path: String,
    pub preview: String,
    pub size: usize,
    pub extension: String,
    pub line_count: usize,
}

impl FilePreview {
    /// The preview of a file: its first `max_lines` lines joined with
    /// newlines, and the total number of lines.
    pub fn from_content(content: &FileContent, max_lines: usize) -> (r: FilePreview)
        ensures
            r.path@ == content.path@,
            r.size == content.size,
            r.extension@ == content.extension@,
            r.line_count == text::lines_of(content.content@).len(),
            r.preview@ == text::join_lines(
                text::lines_of(content.content@).take(
                    if max_lines as int <= text::lines_of(content.content@).len() {
                        max_lines as int
                    } else {
                        text::lines_of(content.content@).len() as int
                    },
                ),
            ),
    {
        proof {
            text::lemma_lines_of_len(content.content@);
        }
        let lines = text::split_lines(content.content.as_str());
        let line_count = lines.len();
        let n = if max_lines <= line_count {
            max_lines
        } else {
            line_count
        };
        let preview = text::join_first_lines(&lines, n);
        FilePreview {
            path: content.path.clone(),
            preview,
            size: content.size,
            extension: content.extension.clone(),
            line_count,
        }
    }
}

/// One outstanding confirmation token.
pub struct TokenEntry {
    pub path: String,
    pub token: String,
    pub expires_at_ms: i64,
}

/// The token entries that have not expired at an instant.
pub open spec fn live_tokens(s: Seq<TokenEntry>, now_ms: i64) -> Seq<TokenEntry>
    decreases s.len(),
{
    if s.len() == 0 {
        Seq::empty()
    } else {
        let rest = live_tokens(s.drop_last(), now_ms);
        if s.last().expires_at_ms > now_ms {
            rest.push(s.last())
        } else {
            rest
        }
    }
}

/// The token entries for every path but one.
pub open spec fn without_path(s: Seq<TokenEntry>, path: Seq<char>) -> Seq<TokenEntry>
    decreases s.len(),
{
    if s.len() == 0 {
        Seq::empty()
    } else {
        let rest = without_path(s.drop_last(), path);
        if s.last().path@ == path {
            rest
        } else {
            rest.push(s.last())
        }
    }
}

/// Whether some entry confirms this path with this token at this instant.
pub open spec fn token_valid(s: Seq<TokenEntry>, path: Seq<char>, token: Seq<char>, now_ms: i64) -> bool {
    exists|k: int|
        0 <= k < s.len() && s[k].path@ == path && s[k].token@ == token && s[k].expires_at_ms
            > now_ms
}

/// The context reader's state: the configuration and the outstanding
/// confirmation tokens.
pub struct ContextReader {
    config: ContextReaderConfig,
    tokens: Vec<TokenEntry>,
}

impl ContextReader {
    /// The current configuration.
    pub closed spec fn spec_config(self) -> ContextReaderConfig {
        self.config
    }

    /// The outstanding tokens.
    pub closed spec fn spec_tokens(self) -> Seq<TokenEntry> {
        self.tokens@
    }

    /// A reader with the default configuration and no tokens.
    pub fn new() -> (r: Self)
        ensures
            r.spec_config().allowed_extensions@.len() == 9,
            r.spec_config().max_file_size == 1000000,
            r.spec_config().current_scope is None,
            r.spec_tokens().len() == 0,
    {
        ContextReader { config: ContextReaderConfig::default(), tokens: Vec::new() }
    }

    /// The current configuration, copied.
    pub fn get_config(&self) -> (r: ContextReaderConfig)
        ensures
            r.allowed_extensions@ == self.spec_config().allowed_extensions@,
            r.max_file_size == self.spec_config().max_file_size,
            r.current_scope == self.spec_config().current_scope,
    {
        clone_config(&self.config)
    }

    /// Replaces the configuration.
    pub fn update_config(&mut self, new_config: ContextReaderConfig)
        ensures
            final(self).spec_config() == new_config,
            final(self).spec_tokens() == old(self).spec_tokens(),
    {
        self.config = new_config;
    }

    /// Sets the project scope.  Whether the path exists and is a directory
    /// are plain facts the caller reads off the file system and hands in; a
    /// path failing either check is refused and the scope stays as it was.
    pub fn set_scope(&mut self, path: String, exists: bool, is_dir: bool) -> (r: Result<
        (),
        String,
    >)
        ensures
            final(self).spec_tokens() == old(self).spec_tokens(),
            final(self).spec_config().allowed_extensions@ == old(self).spec_config().allowed_extensions@,
            final(self).spec_config().max_file_size == old(self).spec_config().max_file_size,
            !exists ==> (r matches Err(e) && e@ == "Path does not exist: "@ + path@) && final(self).spec_config().current_scope == old(self).spec_config().current_scope,
            exists && !is_dir ==> (r matches Err(e) && e@ == "Path is not a directory: "@ + path@) && final(self).spec_config().current_scope == old(self).spec_config().current_scope,
            exists && is_dir ==> r is Ok && final(self).spec_config().current_scope == Some(path),
    {
        if !exists {
            let mut e = "Path does not exist: ".to_owned();
            e.append(path.as_str());
            return Err(e);
        }
        if !is_dir {
            let mut e = "Path is not a directory: ".to_owned();
            e.append(path.as_str());
            return Err(e);
        }
        self.config.current_scope = Some(path);
        Ok(())
    }

    /// Adds an extension, lowercased, unless it is already listed.
    pub fn add_allowed_extension(&mut self, extension: &str)
        ensures
            final(self).spec_config().max_file_size == old(self).spec_config().max_file_size,
            final(self).spec_config().current_scope == old(self).spec_config().current_scope,
            final(self).spec_tokens() == old(self).spec_tokens(),
            (exists|k: int|
                0 <= k < old(self).spec_config().allowed_extensions@.len() && old(self).spec_config().allowed_extensions@[k]@ == lower_of(extension@)) ==> final(self).spec_config().allowed_extensions@ == old(self).spec_config().allowed_extensions@,
            !(exists|k: int|
                0 <= k < old(self).spec_config().allowed_extensions@.len() && old(self).spec_config().allowed_extensions@[k]@ == lower_of(extension@)) ==> final(self).spec_config().allowed_extensions@.len() == old(self).spec_config().allowed_extensions@.len() + 1 && final(self).spec_config().allowed_extensions@.drop_last() == old(self).spec_config().allowed_extensions@ && final(self).spec_config().allowed_extensions@.last()@ == lower_of(extension@),
    {
        let low = lowercase(extension);
        let n = self.config.allowed_extensions.len();
        let mut k: usize = 0;
        while k < n
            invariant
                k <= n,
                n == self.config.allowed_extensions@.len(),
                low@ == lower_of(extension@),
                self == old(self),
                forall|j: int| 0 <= j < k ==> self.config.allowed_extensions@[j]@ != low@,
            decreases n - k,
        {
            if self.config.allowed_extensions[k] == low {
                return ;
            }
            k = k + 1;
        }
        self.config.allowed_extensions.push(low);
        proof {
            assert(self.config.allowed_extensions@.drop_last() =~= old(self).spec_config().allowed_extensions@);
        }
    }

    /// Removes an extension from the allowlist, by its lowercased form.
    pub fn remove_allowed_extension(&mut self, extension: &str)
        ensures
            final(self).spec_config().max_file_size == old(self).spec_config().max_file_size,
            final(self).spec_config().current_scope == old(self).spec_config().current_scope,
            final(self).spec_tokens() == old(self).spec_tokens(),
            string_views(final(self).spec_config().allowed_extensions@) == without_ext(
                string_views(old(self).spec_config().allowed_extensions@),
                lower_of(extension@),
            ),
    {
        let low = lowercase(extension);
        let n = self.config.allowed_extensions.len();
        let mut kept: Vec<String> = Vec::new();
        let mut k: usize = 0;
        proof {
            assert(without_ext(
                string_views(old(self).spec_config().allowed_extensions@.take(0)),
                low@,
            ) =~= Seq::<Seq<char>>::empty());
            assert(string_views(kept@) =~= Seq::<Seq<char>>::empty());
            assert(string_views(old(self).spec_config().allowed_extensions@.take(0)) =~= Seq::<
                Seq<char>,
            >::empty());
        }
        while k < n
            invariant
                k <= n,
                n == old(self).spec_config().allowed_extensions@.len(),
                self == old(self),
                low@ == lower_of(extension@),
                string_views(kept@) == without_ext(
                    string_views(old(self).spec_config().allowed_extensions@.take(k as int)),
                    low@,
                ),
            decreases n - k,
        {
            let e = &self.config.allowed_extensions[k];
            if !(*e == low) {
                kept.push(e.clone());
            }
            proof {
                let views = string_views(old(self).spec_config().allowed_extensions@);
                let prefix = string_views(
                    old(self).spec_config().allowed_extensions@.take(k as int),
                );
                let prefix1 = string_views(
                    old(self).spec_config().allowed_extensions@.take(k as int + 1),
                );
                assert(prefix1.drop_last() =~= prefix);
                assert(prefix1.last() == old(self).spec_config().allowed_extensions@[k as int]@);
                if *e == low {
                    assert(string_views(kept@) =~= without_ext(prefix1, low@));
                } else {
                    assert(string_views(kept@) =~= without_ext(prefix1, low@));
                }
            }
            k = k + 1;
        }
        proof {
            assert(old(self).spec_config().allowed_extensions@.take(n as int) =~= old(self).spec_config().allowed_extensions@);
        }
        self.config.allowed_extensions = kept;
    }

    /// Issues a fresh confirmation token for a path, replacing any earlier
    /// token for the same path; it expires after the validity window.
    pub fn generate_confirmation_token(&mut self, path: &str, now_ms: i64) -> (r: String)
        requires
            now_ms + TOKEN_VALIDITY_MS <= i64::MAX,
        ensures
            final(self).spec_config() == old(self).spec_config(),
            final(self).spec_tokens().len() == without_path(old(self).spec_tokens(), path@).len()
                + 1,
            final(self).spec_tokens().drop_last() == without_path(old(self).spec_tokens(), path@),
            ({
                let e = final(self).spec_tokens().last();
                &&& e.path@ == path@
                &&& e.token@ == r@
                &&& e.expires_at_ms == now_ms + TOKEN_VALIDITY_MS
            }),
    {
        let token = crate::bridge::fresh_uuid();
        let token_copy = token.clone();
        let n = self.tokens.len();
        let mut kept: Vec<TokenEntry> = Vec::new();
        let mut k: usize = 0;
        proof {
            assert(without_path(old(self).spec_tokens().take(0), path@) =~= Seq::<
                TokenEntry,
            >::empty());
        }
        while k < n
            invariant
                k <= n,
                n == old(self).spec_tokens().len(),
                self.tokens@ == old(self).spec_tokens(),
                self.config == old(self).spec_config(),
                kept@ == without_path(old(self).spec_tokens().take(k as int), path@),
            decreases n - k,
        {
            let e = &self.tokens[k];
            let matches_path = text::str_eq(e.path.as_str(), path);
            if !matches_path {
                kept.push(
                    TokenEntry {
                        path: e.path.clone(),
                        token: e.token.clone(),
                        expires_at_ms: e.expires_at_ms,
                    },
                );
            }
            proof {
                let s = old(self).spec_tokens();
                let prefix1 = s.take(k as int + 1);
                assert(prefix1.drop_last() =~= s.take(k as int));
                assert(prefix1.last() == s[k as int]);
            }
            k = k + 1;
        }
        proof {
            assert(old(self).spec_tokens().take(n as int) =~= old(self).spec_tokens());
        }
        kept.push(TokenEntry { path: path.to_owned(), token, expires_at_ms: now_ms + TOKEN_VALIDITY_MS });
        self.tokens = kept;
        proof {
            assert(final(self).spec_tokens().drop_last() =~= without_path(
                old(self).spec_tokens(),
                path@,
            ));
        }
        token_copy
    }

    /// Validates and consumes a confirmation token: expired tokens are
    /// swept, and a matching live token is spent — it confirms exactly one
    /// read.
    pub fn validate_confirmation_token(&mut self, path: &str, token: &str, now_ms: i64) -> (r:
        bool)
        ensures
            final(self).spec_config() == old(self).spec_config(),
            r == token_valid(live_tokens(old(self).spec_tokens(), now_ms), path@, token@, now_ms),
            r ==> final(self).spec_tokens() == without_path(
                live_tokens(old(self).spec_tokens(), now_ms),
                path@,
            ),
            !r ==> final(self).spec_tokens() == live_tokens(old(self).spec_tokens(), now_ms),
    {
        let n = self.tokens.len();
        let mut kept: Vec<TokenEntry> = Vec::new();
        let mut k: usize = 0;
        proof {
            assert(live_tokens(old(self).spec_tokens().take(0), now_ms) =~= Seq::<
                TokenEntry,
            >::empty());
        }
        while k < n
            invariant
                k <= n,
                n == old(self).spec_tokens().len(),
                self.tokens@ == old(self).spec_tokens(),
                self.config == old(self).spec_config(),
                kept@ == live_tokens(old(self).spec_tokens().take(k as int), now_ms),
            decreases n - k,
        {
            let e = &self.tokens[k];
            if e.expires_at_ms > now_ms {
                kept.push(
                    TokenEntry {
                        path: e.path.clone(),
                        token: e.token.clone(),
                        expires_at_ms: e.expires_at_ms,
                    },
                );
            }
            proof {
                let s = old(self).spec_tokens();
                let prefix1 = s.take(k as int + 1);
                assert(prefix1.drop_last() =~= s.take(k as int));
                assert(prefix1.last() == s[k as int]);
            }
            k = k + 1;
        }
        proof {
            assert(old(self).spec_tokens().take(n as int) =~= old(self).spec_tokens());
        }
        self.tokens = kept;
        let ghost live = live_tokens(old(self).spec_tokens(), now_ms);
        let m = self.tokens.len();
        let mut i: usize = 0;
        while i < m
            invariant
                i <= m,
                live == live_tokens(old(self).spec_tokens(), now_ms),
                m == live.len(),
                self.tokens@ == live,
                self.config == old(self).spec_config(),
                forall|j: int|
                    0 <= j < i ==> !(live[j].path@ == path@ && live[j].token@ == token@),
            decreases m - i,
        {
            let e = &self.tokens[i];
            if text::str_eq(e.path.as_str(), path) && text::str_eq(e.token.as_str(), token) {
                proof {
                    lemma_live_tokens_live(old(self).spec_tokens(), now_ms);
                    assert(live_tokens(old(self).spec_tokens(), now_ms)[i as int].expires_at_ms
                        > now_ms);
                    assert(live[i as int].expires_at_ms > now_ms);
                    assert(token_valid(live, path@, token@, now_ms));
                }
                self.remove_token_at_path(path);
                return true;
            }
            i = i + 1;
        }
        proof {
            assert(!token_valid(live, path@, token@, now_ms)) by {
                if token_valid(live, path@, token@, now_ms) {
                    let j = choose|j: int|
                        0 <= j < live.len() && live[j].path@ == path@ && live[j].token@ == token@
                            && live[j].expires_at_ms > now_ms;
                    assert(false);
                }
            }
        }
        false
    }

    /// Removes every token for a path.
    fn remove_token_at_path(&mut self, path: &str)
        ensures
            final(self).spec_config() == old(self).spec_config(),
            final(self).spec_tokens() == without_path(old(self).spec_tokens(), path@),
    {
        let n = self.tokens.len();
        let mut kept: Vec<TokenEntry> = Vec::new();
        let mut k: usize = 0;
        proof {
            assert(without_path(old(self).spec_tokens().take(0), path@) =~= Seq::<
                TokenEntry,
            >::empty());
        }
        while k < n
            invariant
                k <= n,
                n == old(self).spec_tokens().len(),
                self.tokens@ == old(self).spec_tokens(),
                self.config == old(self).spec_config(),
                kept@ == without_path(old(self).spec_tokens().take(k as int), path@),
            decreases n - k,
        {
            let e = &self.tokens[k];
            let matches_path = text::str_eq(e.path.as_str(), path);
            if !matches_path {
                kept.push(
                    TokenEntry {
                        path: e.path.clone(),
                        token: e.token.clone(),
                        expires_at_ms: e.expires_at_ms,
                    },
                );
            }
            proof {
                let s = old(self).spec_tokens();
                let prefix1 = s.take(k as int + 1);
                assert(prefix1.drop_last() =~= s.take(k as int));
                assert(prefix1.last() == s[k as int]);
            }
            k = k + 1;
        }
        proof {
            assert(old(self).spec_tokens().take(n as int) =~= old(self).spec_tokens());
        }
        self.tokens = kept;
    }
}

/// The allowlist without one extension.
pub open spec fn without_ext(allowed: Seq<Seq<char>>, e: Seq<char>) -> Seq<Seq<char>>
    decreases allowed.len(),
{
    if allowed.len() == 0 {
        Seq::empty()
    } else {
        let rest = without_ext(allowed.drop_last(), e);
        if allowed.last() == e {
            rest
        } else {
            rest.push(allowed.last())
        }
    }
}

/// Every entry that survives the expiry sweep is live.
pub proof fn lemma_live_tokens_live(s: Seq<TokenEntry>, now_ms: i64)
    ensures
        forall|j: int|
            0 <= j < live_tokens(s, now_ms).len() ==> #[trigger] live_tokens(s, now_ms)[j].expires_at_ms
                > now_ms,
    decreases s.len(),
{
    if s.len() > 0 {
        lemma_live_tokens_live(s.drop_last(), now_ms);
        let rest = live_tokens(s.drop_last(), now_ms);
        assert forall|j: int|
            0 <= j < live_tokens(s, now_ms).len() implies #[trigger] live_tokens(
            s,
            now_ms,
        )[j].expires_at_ms > now_ms by {
            if s.last().expires_at_ms > now_ms {
                if j < rest.len() {
                    assert(live_tokens(s, now_ms)[j] == rest[j]);
                } else {
                    assert(live_tokens(s, now_ms)[j] == s.last());
                }
            } else {
                assert(live_tokens(s, now_ms)[j] == rest[j]);
            }
        }
    }
}

} // verus!
