//! Process configuration: the storage connection string and the
//! deployment environment tag.

use vstd::prelude::*;
use vstd::string::StringExecFns;

verus! {

/// Everything the process reads from its environment that affects core
/// behavior: where the store lives and which environment tag applies.
#[derive(Debug, Clone)]
pub struct Config {
    pub db_url: String,
    pub app_env: AppEnv,
}

/// The deployment environment tag.
#[derive(Debug, Clone, PartialEq, Eq, Structural)]
pub enum AppEnv {
    Local,
    Dev,
    Prod,
}

/// What `str::to_lowercase` returns for a given character sequence.
pub uninterp spec fn lower_of(s: Seq<char>) -> Seq<char>;

/// Relies on `str::to_lowercase`: the Unicode lowercase of the input,
/// a function of the input characters alone.
#[verifier::external_body]
fn lowercase(s: &str) -> (r: String)
    ensures
        r@ == lower_of(s@),
{
    s.to_lowercase()
}

impl AppEnv {
    /// Parses an environment tag, case-insensitively; anything outside the
    /// recognized spellings is rejected with a diagnostic.
    pub fn from_str(s: &str) -> (r: Result<Self, String>)
        ensures
            r == Ok::<AppEnv, String>(AppEnv::Local) <==> lower_of(s@) == "local"@,
            r == Ok::<AppEnv, String>(AppEnv::Dev) <==> (lower_of(s@) == "dev"@
                || lower_of(s@) == "development"@),
            r == Ok::<AppEnv, String>(AppEnv::Prod) <==> (lower_of(s@) == "prod"@
                || lower_of(s@) == "production"@),
            r matches Err(m) ==> m@ == "invalid APP_ENV: "@ + s@,
    {
        proof {
            reveal_strlit("local");
            reveal_strlit("dev");
            reveal_strlit("development");
            reveal_strlit("prod");
            reveal_strlit("production");
            // The five spellings have pairwise different lengths, so the
            // branches below are mutually exclusive.
            assert("local"@.len() == 5);
            assert("dev"@.len() == 3);
            assert("development"@.len() == 11);
            assert("prod"@.len() == 4);
            assert("production"@.len() == 10);
        }
        let l = lowercase(s);
        if l == "local".to_owned() {
            Ok(AppEnv::Local)
        } else if l == "dev".to_owned() || l == "development".to_owned() {
            Ok(AppEnv::Dev)
        } else if l == "prod".to_owned() || l == "production".to_owned() {
            Ok(AppEnv::Prod)
        } else {
            let mut m: String = "invalid APP_ENV: ".to_owned();
            m.append(s);
            Err(m)
        }
    }

    /// True exactly for the production tag.
    pub fn is_prod(&self) -> (r: bool)
        ensures
            r == (self is Prod),
    {
        match self {
            AppEnv::Prod => true,
            _ => false,
        }
    }
}

} // verus!
