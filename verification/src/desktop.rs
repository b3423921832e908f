//! The desktop process driver: a validated handle on the draw.io Desktop
//! application, the headless-mode augmentation of a rendered token sequence,
//! and the default binary location per operating system.

use vstd::prelude::*;
use vstd::string::StringExecFns;
use crate::arguments::ExportArguments;
use crate::arguments::ExportArgumentsView;
use crate::arguments::export_tokens;
use crate::arguments::push_token;
use crate::arguments::views_of;
use crate::outcome::ExportError;

verus! {

/// A validated, located application binary plus the headless flag. Built once
/// at startup, after the path has been checked to exist, and reused for every
/// job of the batch.
#[derive(Debug)]
pub struct DrawioDesktop {
    pub application: String,
    pub is_headless: bool,
}

/// The two tokens appended in headless mode: they disable the OS sandbox and
/// the shared-memory device usage, which headless container environments
/// commonly lack.
pub open spec fn headless_tokens() -> Seq<Seq<char>> {
    seq!["--no-sandbox"@, "--disable-dev-shm-usage"@]
}

/// The complete argument vector for one job: the rendered export tokens,
/// followed by the headless tokens exactly when headless mode is enabled.
pub open spec fn command_tokens(is_headless: bool, c: ExportArgumentsView) -> Seq<Seq<char>> {
    if is_headless {
        export_tokens(c) + headless_tokens()
    } else {
        export_tokens(c)
    }
}

/// Relies on std::path::Path::exists, which queries the filesystem: the
/// answer depends on the machine's state, so nothing is promised of it.
#[verifier::external_body]
fn application_path_exists(application: &String) -> bool {
    std::path::Path::new(application.as_str()).exists()
}

impl DrawioDesktop {
    /// Validates the application path eagerly and builds the handle. Checks
    /// the filesystem once: a handle comes back only for a path that existed
    /// at that moment, and a missing path is a configuration error carrying
    /// the offending path, before any subprocess is attempted.
    pub fn new(application: &String, is_headless: bool) -> (r: Result<DrawioDesktop, ExportError>)
        ensures
            r matches Ok(d) ==> d.application@ == application@ && d.is_headless == is_headless,
            r matches Err(e) ==> e matches ExportError::Configuration { path } && path@
                == application@,
    {
        let application_exists = application_path_exists(application);
        Self::with_path_existence(application, application_exists, is_headless)
    }

    /// The validation decision itself, over an already-answered existence
    /// check: accepts and builds the handle exactly when the path exists, and
    /// reports a configuration error carrying the path otherwise.
    pub fn with_path_existence(
        application: &String,
        application_exists: bool,
        is_headless: bool,
    ) -> (r: Result<DrawioDesktop, ExportError>)
        ensures
            r is Ok <==> application_exists,
            r matches Ok(d) ==> d.application@ == application@ && d.is_headless == is_headless,
            r matches Err(e) ==> e matches ExportError::Configuration { path } && path@
                == application@,
    {
        if application_exists {
            Ok(DrawioDesktop { application: application.clone(), is_headless })
        } else {
            Err(ExportError::Configuration { path: application.clone() })
        }
    }

    /// The argument vector to launch the application with for one job: the
    /// configuration's rendered tokens, extended with the two headless tokens
    /// when this handle runs headless.
    pub fn command_arguments(&self, arguments: &ExportArguments) -> (r: Vec<String>)
        ensures
            views_of(r@) == command_tokens(self.is_headless, arguments@),
    {
        let mut tokens = arguments.as_shell_arguments();
        if self.is_headless {
            push_token(&mut tokens, String::from_str("--no-sandbox"));
            push_token(&mut tokens, String::from_str("--disable-dev-shm-usage"));
            proof {
                assert((export_tokens(arguments@) + seq!["--no-sandbox"@]) + seq![
                    "--disable-dev-shm-usage"@,
                ] =~= export_tokens(arguments@) + headless_tokens());
            }
        }
        tokens
    }
}

/// Headless augmentation law: with headless mode enabled the two sandbox
/// disabling tokens stand strictly after every rendered export token, in that
/// order and nowhere else; with it disabled nothing is added.
pub proof fn lemma_headless_tokens_follow_export_tokens(c: ExportArgumentsView)
    ensures
        command_tokens(false, c) == export_tokens(c),
        command_tokens(true, c).len() == export_tokens(c).len() + 2,
        command_tokens(true, c).subrange(0, export_tokens(c).len() as int) == export_tokens(c),
        command_tokens(true, c)[export_tokens(c).len() as int] == "--no-sandbox"@,
        command_tokens(true, c)[export_tokens(c).len() as int + 1] == "--disable-dev-shm-usage"@,
{
    assert(command_tokens(true, c).subrange(0, export_tokens(c).len() as int) =~= export_tokens(
        c,
    ));
}

/// The default draw.io Desktop binary location for a given operating system
/// name, as `std::env::consts::OS` spells it. Platforms without a known
/// install location get the empty string: the caller must supply a path.
pub open spec fn default_application_for(os: Seq<char>) -> Seq<char> {
    if os == "macos"@ {
        "/Applications/draw.io.app/Contents/MacOS/draw.io"@
    } else if os == "windows"@ {
        "C:\\Program Files\\draw.io\\draw.io.exe"@
    } else if os == "linux"@ {
        "/opt/drawio/drawio"@
    } else {
        ""@
    }
}

/// Returns the default application path for the operating system named `os`.
pub fn os_default_application(os: &str) -> (r: String)
    ensures
        r@ == default_application_for(os@),
{
    let os_owned = String::from_str(os);
    if os_owned.eq(&String::from_str("macos")) {
        String::from_str("/Applications/draw.io.app/Contents/MacOS/draw.io")
    } else if os_owned.eq(&String::from_str("windows")) {
        String::from_str("C:\\Program Files\\draw.io\\draw.io.exe")
    } else if os_owned.eq(&String::from_str("linux")) {
        String::from_str("/opt/drawio/drawio")
    } else {
        String::from_str("")
    }
}

} // verus!
