//! Privacy rules: which applications are never recorded, and which content may not leave
//! the machine.
use vstd::prelude::*;
use crate::text::{trim, contains, lowercase, to_lowercase, trim_str, chars_of, contains_chars, texts};
use crate::foreign::{regex_is_match, regex_match_count, regex_matches, regex_count_matches};
use crate::classifier::{ID_CARD_PATTERN, PHONE_PATTERN};
use crate::config::schema::AppConfig;

verus! {

/// Whether the lower-cased `app` contains the lower-cased name of one of `excluded`.
pub open spec fn app_is_excluded(app: Seq<char>, excluded: Seq<Seq<char>>) -> bool {
    exists|i: int| 0 <= i < excluded.len() && #[trigger] contains(lowercase(app), lowercase(excluded[i]))
}

/// Content that must not be sent to a remote backend: the trimmed text is an identity-card
/// number, or it holds three or more mobile phone numbers.
pub open spec fn sensitive(content: Seq<char>) -> bool {
    regex_is_match(ID_CARD_PATTERN@, trim(content)) || regex_match_count(PHONE_PATTERN@, trim(content)) >= 3
}

/// Whether the foreground application `app` is on the exclusion list (case-insensitive
/// substring match).
pub fn is_excluded_app(app: &str, excluded: &Vec<String>) -> (r: bool)
    ensures
        r == app_is_excluded(app@, texts(excluded@)),
{
    let app_lower = to_lowercase(app);
    let app_chars = chars_of(app_lower.as_str());
    let n = excluded.len();
    let mut i: usize = 0;
    while i < n
        invariant
            n == excluded.len(),
            i <= n,
            app_chars@ == lowercase(app@),
            forall|j: int| 0 <= j < i ==> !contains(lowercase(app@), lowercase(#[trigger] texts(excluded@)[j])),
        decreases n - i,
    {
        let e_lower = to_lowercase(excluded[i].as_str());
        let e_chars = chars_of(e_lower.as_str());
        if contains_chars(&app_chars, &e_chars) {
            assert(contains(lowercase(app@), lowercase(texts(excluded@)[i as int])));
            return true;
        }
        i = i + 1;
    }
    false
}

/// Whether the clipboard content should be skipped because the foreground application
/// (`frontmost`, when it could be determined) is excluded by the configuration.
pub fn should_skip_clipboard(config: &AppConfig, frontmost: &Option<String>) -> (r: bool)
    ensures
        r == match frontmost {
            Some(app) => app_is_excluded(app@, config@.privacy.excluded_apps),
            None => false,
        },
{
    match frontmost {
        Some(app) => is_excluded_app(app.as_str(), &config.privacy.excluded_apps),
        None => false,
    }
}

/// Whether `content` matches one of the sensitive patterns.
pub fn contains_sensitive_patterns(content: &str) -> (r: bool)
    ensures
        r == sensitive(content@),
{
    let trimmed = trim_str(content);
    if regex_matches(ID_CARD_PATTERN, trimmed.as_str()) {
        return true;
    }
    let phone_count = regex_count_matches(PHONE_PATTERN, trimmed.as_str());
    phone_count >= 3
}

/// Whether `content` may be sent to a remote API: always when the configuration allows
/// sensitive content, otherwise only when no sensitive pattern is found.
pub fn can_send_to_remote(config: &AppConfig, content: &str) -> (r: bool)
    ensures
        r == (config@.privacy.log_sensitive || !sensitive(content@)),
{
    if !config.privacy.log_sensitive {
        if contains_sensitive_patterns(content) {
            return false;
        }
    }
    true
}

/// Content may go to a remote model (see `can_send_to_remote`), or else the refusal
/// "隐私保护: 检测到敏感内容，阻止远程发送".
pub fn remote_send_check(config: &AppConfig, content: &str) -> (r: Result<(), String>)
    ensures
        (r is Ok) == (config@.privacy.log_sensitive || !sensitive(content@)),
        r matches Err(e) ==> e@ == "隐私保护: 检测到敏感内容，阻止远程发送"@,
{
    if can_send_to_remote(config, content) {
        Ok(())
    } else {
        Err("隐私保护: 检测到敏感内容，阻止远程发送".to_owned())
    }
}

} // verus!
