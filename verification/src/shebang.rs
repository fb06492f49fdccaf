use vstd::prelude::*;
use vstd::string::StringExecFns;

use crate::errors::HgenError;

verus! {

/// ShebangPolicy as a decision table. An explicit request always takes
/// precedence over the default-enabled setting; only when no explicit flag is
/// given does the global default apply. The boolean beside the text reports
/// whether a warning was emitted (the only non-fatal degradation: default
/// enabled but no shebang configured).
pub open spec fn shebang_outcome(
    header: Seq<char>,
    shebang: Option<Seq<char>>,
    explicit_request: bool,
    default_enabled: bool,
) -> Result<(Seq<char>, bool), HgenError> {
    if explicit_request {
        match shebang {
            Some(s) => Ok((s + "\n\n"@ + header, false)),
            None => Err(HgenError::ShebangUndefined),
        }
    } else if default_enabled {
        match shebang {
            Some(s) => Ok((s + "\n\n"@ + header, false)),
            None => Ok((header, true)),
        }
    } else {
        Ok((header, false))
    }
}

/// Applies the shebang policy to a rendered header: prepends the configured
/// shebang line and a blank line where the decision table says so, fails with
/// `ShebangUndefined` where a shebang was explicitly requested but none is
/// configured, and otherwise hands the header back unchanged, reporting in
/// the returned flag whether the degraded default case warned.
pub fn apply_shebang(
    header: String,
    shebang: &Option<String>,
    explicit_request: bool,
    default_enabled: bool,
) -> (r: Result<(String, bool), HgenError>)
    ensures
        ({
            let outcome = shebang_outcome(
                header@,
                shebang.deep_view(),
                explicit_request,
                default_enabled,
            );
            match r {
                Ok(p) => outcome == Ok::<(Seq<char>, bool), HgenError>((p.0@, p.1)),
                Err(e) => outcome == Err::<(Seq<char>, bool), HgenError>(e),
            }
        }),
{
    if explicit_request {
        match shebang {
            Some(s) => {
                let mut text = s.clone();
                text.append("\n\n");
                text.append(header.as_str());
                Ok((text, false))
            },
            None => Err(HgenError::ShebangUndefined),
        }
    } else if default_enabled {
        match shebang {
            Some(s) => {
                let mut text = s.clone();
                text.append("\n\n");
                text.append(header.as_str());
                Ok((text, false))
            },
            None => Ok((header, true)),
        }
    } else {
        Ok((header, false))
    }
}

/// Law: with the shebang default enabled and no shebang configured for the
/// language, the header text is unchanged, a warning is reported, and the run
/// succeeds.
pub proof fn lemma_default_shebang_missing_warns(header: Seq<char>)
    ensures
        shebang_outcome(header, None, false, true) == Ok::<(Seq<char>, bool), HgenError>(
            (header, true),
        ),
{
}

/// Law: a shebang explicitly requested for a language that configures none is
/// the fatal `ShebangUndefined`, whatever the global default says.
pub proof fn lemma_explicit_shebang_missing_fails(header: Seq<char>, default_enabled: bool)
    ensures
        shebang_outcome(header, None, true, default_enabled) == Err::<
            (Seq<char>, bool),
            HgenError,
        >(HgenError::ShebangUndefined),
{
}

} // verus!
