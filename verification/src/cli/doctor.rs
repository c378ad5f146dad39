//! What is wrong with the browser's surroundings.
use crate::json::{json_member, text_member, JsonMember, JsonMemberView};
use crate::cli::rows::{row2, row3, row4};
use crate::text::{is_blank, same_text, text2};
use vstd::prelude::*;

verus! {

broadcast use crate::model::group_views;

/// How the running browser is found.
pub open spec fn target_status(
    has_url: bool,
    has_token: bool,
    has_control_file: bool,
) -> Seq<char> {
    if has_url && has_token {
        "direct-url-token"@
    } else if has_url {
        "missing-token"@
    } else if has_token {
        "missing-url"@
    } else if has_control_file {
        "control-file"@
    } else {
        "control-file-missing"@
    }
}

/// How the running browser is found.
pub fn desktop_doctor_target_status(has_url: bool, has_token: bool, has_control_file: bool) -> (
    status: &'static str)
    ensures
        status@ == target_status(has_url, has_token, has_control_file),
{
    match (has_url, has_token, has_control_file) {
        (true, true, _) => "direct-url-token",
        (true, false, _) => "missing-token",
        (false, true, _) => "missing-url",
        (false, false, true) => "control-file",
        (false, false, false) => "control-file-missing",
    }
}

/// What shows pages on an operating system.
pub open spec fn webview_runtime(os: Seq<char>) -> Seq<char> {
    if os == "linux"@ {
        "WebKitGTK"@
    } else if os == "macos"@ {
        "WKWebView"@
    } else if os == "windows"@ {
        "WebView2"@
    } else {
        "unsupported"@
    }
}

/// What shows pages on an operating system.
pub fn webview_runtime_for_os(os: &str) -> (runtime: &'static str)
    ensures
        runtime@ == webview_runtime(os@),
{
    if same_text(os, "linux") {
        "WebKitGTK"
    } else if same_text(os, "macos") {
        "WKWebView"
    } else if same_text(os, "windows") {
        "WebView2"
    } else {
        "unsupported"
    }
}

/// What to install on an operating system.
pub open spec fn webview_hint(os: Seq<char>) -> Seq<char> {
    if os == "linux"@ {
        "Install pkg-config, WebKitGTK 4.1, GTK 3, GLib, GDK Pixbuf, Pango, and libsoup development packages."@
    } else if os == "macos"@ {
        "Install the Xcode command line tools."@
    } else if os == "windows"@ {
        "Install Microsoft C++ build tools. The WebView2 runtime is built into current Windows installs and available as a redistributable for older systems."@
    } else {
        "Telescope desktop has not declared a webview backend for this OS."@
    }
}

/// What to install on an operating system.
pub fn webview_hint_for_os(os: &str) -> (hint: &'static str)
    ensures
        hint@ == webview_hint(os@),
{
    if same_text(os, "linux") {
        "Install pkg-config, WebKitGTK 4.1, GTK 3, GLib, GDK Pixbuf, Pango, and libsoup development packages."
    } else if same_text(os, "macos") {
        "Install the Xcode command line tools."
    } else if same_text(os, "windows") {
        "Install Microsoft C++ build tools. The WebView2 runtime is built into current Windows installs and available as a redistributable for older systems."
    } else {
        "Telescope desktop has not declared a webview backend for this OS."
    }
}

/// One thing that was looked at.
#[derive(Debug, PartialEq, Eq)]
pub struct DesktopDoctorCheck {
    pub name: String,
    pub status: String,
    pub detail: String,
}

/// Model of [`DesktopDoctorCheck`].
#[verifier::ext_equal]
pub struct DesktopDoctorCheckView {
    pub name: Seq<char>,
    pub status: Seq<char>,
    pub detail: Seq<char>,
}

impl View for DesktopDoctorCheck {
    type V = DesktopDoctorCheckView;

    open spec fn view(&self) -> DesktopDoctorCheckView {
        DesktopDoctorCheckView { name: self.name@, status: self.status@, detail: self.detail@ }
    }
}

/// What looking for a package gave.
#[derive(Debug, PartialEq, Eq)]
pub enum PackageFinding {
    Found,
    Missing,
    Unknown(String),
}

/// Model of [`PackageFinding`].
#[verifier::ext_equal]
pub enum PackageFindingView {
    Found,
    Missing,
    Unknown(Seq<char>),
}

impl View for PackageFinding {
    type V = PackageFindingView;

    open spec fn view(&self) -> PackageFindingView {
        match self {
            PackageFinding::Found => PackageFindingView::Found,
            PackageFinding::Missing => PackageFindingView::Missing,
            PackageFinding::Unknown(error) => PackageFindingView::Unknown(error@),
        }
    }
}

/// The packages that are looked for on an operating system.
pub open spec fn packages(os: Seq<char>) -> Seq<Seq<char>> {
    if os == "linux"@ {
        seq!["webkit2gtk-4.1"@, "gtk+-3.0"@, "glib-2.0"@, "gdk-pixbuf-2.0"@, "pango"@]
    } else {
        Seq::empty()
    }
}

/// The packages that are looked for on an operating system.
pub fn packages_for_os(os: &str) -> (names: Vec<String>)
    ensures
        crate::model::views(names@) == packages(os@),
{
    let mut names: Vec<String> = Vec::new();
    if same_text(os, "linux") {
        names.push("webkit2gtk-4.1".to_owned());
        names.push("gtk+-3.0".to_owned());
        names.push("glib-2.0".to_owned());
        names.push("gdk-pixbuf-2.0".to_owned());
        names.push("pango".to_owned());
    }
    assert(crate::model::views(names@) =~= packages(os@));
    names
}

/// What is said of a package.
pub open spec fn package_check(
    package: Seq<char>,
    finding: PackageFindingView,
) -> DesktopDoctorCheckView {
    match finding {
        PackageFindingView::Found => DesktopDoctorCheckView {
            name: package,
            status: "ok"@,
            detail: "pkg-config found the package"@,
        },
        PackageFindingView::Missing => DesktopDoctorCheckView {
            name: package,
            status: "missing"@,
            detail: "pkg-config could not find the package"@,
        },
        PackageFindingView::Unknown(error) => DesktopDoctorCheckView {
            name: package,
            status: "unknown"@,
            detail: "could not run pkg-config: "@ + error,
        },
    }
}

/// What is said of a package.
pub fn pkg_config_check(package: &str, finding: &PackageFinding) -> (check: DesktopDoctorCheck)
    ensures
        check@ == package_check(package@, finding@),
{
    match finding {
        PackageFinding::Found => DesktopDoctorCheck {
            name: package.to_owned(),
            status: "ok".to_owned(),
            detail: "pkg-config found the package".to_owned(),
        },
        PackageFinding::Missing => DesktopDoctorCheck {
            name: package.to_owned(),
            status: "missing".to_owned(),
            detail: "pkg-config could not find the package".to_owned(),
        },
        PackageFinding::Unknown(error) => DesktopDoctorCheck {
            name: package.to_owned(),
            status: "unknown".to_owned(),
            detail: text2("could not run pkg-config: ", error.as_str()),
        },
    }
}

/// What is said of an operating system; `findings` is what looking for its packages gave.
pub open spec fn webview_checks(os: Seq<char>, findings: Seq<PackageFindingView>) -> Seq<
    DesktopDoctorCheckView,
> {
    if os == "linux"@ {
        Seq::new(
            packages(os).len(),
            |i: int| package_check(packages(os)[i], findings[i]),
        )
    } else {
        seq![
            DesktopDoctorCheckView {
                name: webview_runtime(os),
                status: "info"@,
                detail: webview_hint(os),
            },
        ]
    }
}

/// What is said of an operating system; `findings` is what looking for its packages gave, one for
/// each.
pub fn webview_checks_for_os(os: &str, findings: &Vec<PackageFinding>) -> (checks: Vec<
    DesktopDoctorCheck,
>)
    requires
        findings@.len() == packages(os@).len(),
    ensures
        crate::model::views(checks@) == webview_checks(os@, crate::model::views(findings@)),
{
    let mut checks: Vec<DesktopDoctorCheck> = Vec::new();
    if !same_text(os, "linux") {
        checks.push(
            DesktopDoctorCheck {
                name: webview_runtime_for_os(os).to_owned(),
                status: "info".to_owned(),
                detail: webview_hint_for_os(os).to_owned(),
            },
        );
        assert(crate::model::views(checks@) =~= webview_checks(
            os@,
            crate::model::views(findings@),
        ));
        return checks;
    }
    let names = packages_for_os(os);
    let ghost found = crate::model::views(findings@);
    for i in 0..names.len()
        invariant
            os@ == "linux"@,
            crate::model::views(names@) == packages(os@),
            found == crate::model::views(findings@),
            findings@.len() == names@.len(),
            checks@.len() == i,
            forall|j: int| 0 <= j < i ==> (#[trigger] checks@[j])@ == webview_checks(os@, found)[j],
    {
        assert(packages(os@)[i as int] == names@[i as int]@);
        assert(found[i as int] == findings@[i as int]@);
        checks.push(pkg_config_check(names[i].as_str(), &findings[i]));
    }
    assert(crate::model::views(checks@) =~= webview_checks(os@, found));
    checks
}

/// What reading the control file gave.
#[derive(Debug, PartialEq, Eq)]
pub enum ControlFileContent {
    Missing,
    Unreadable(String),
    Text(String),
}

/// Model of [`ControlFileContent`].
#[verifier::ext_equal]
pub enum ControlFileContentView {
    Missing,
    Unreadable(Seq<char>),
    Text(Seq<char>),
}

impl View for ControlFileContent {
    type V = ControlFileContentView;

    open spec fn view(&self) -> ControlFileContentView {
        match self {
            ControlFileContent::Missing => ControlFileContentView::Missing,
            ControlFileContent::Unreadable(error) => ControlFileContentView::Unreadable(error@),
            ControlFileContent::Text(text) => ControlFileContentView::Text(text@),
        }
    }
}

/// What is said of the control file. Its token is not.
#[derive(Debug, PartialEq, Eq)]
pub struct ControlFileInspection {
    pub exists: bool,
    pub readable: bool,
    pub valid: bool,
    pub error: Option<String>,
}

/// Model of [`ControlFileInspection`].
#[verifier::ext_equal]
pub struct ControlFileInspectionView {
    pub exists: bool,
    pub readable: bool,
    pub valid: bool,
    pub error: Option<Seq<char>>,
}

impl View for ControlFileInspection {
    type V = ControlFileInspectionView;

    open spec fn view(&self) -> ControlFileInspectionView {
        ControlFileInspectionView {
            exists: self.exists,
            readable: self.readable,
            valid: self.valid,
            error: crate::model::opt_view(self.error),
        }
    }
}

/// Whether a member is a text that is not blank.
pub open spec fn filled_member(member: Option<JsonMemberView>) -> bool {
    crate::json::as_text(member) matches Some(text) && crate::text::trim(text).len() > 0
}

/// Whether a member is a text that is not blank.
fn is_filled(member: Option<JsonMember>) -> (yes: bool)
    ensures
        yes == filled_member(crate::model::opt_view(member)),
{
    match text_member(member) {
        Some(text) => !is_blank(text.as_str()),
        None => false,
    }
}

/// What is said of a control file, by what it holds under the names of the address and of the
/// owner's token.
pub open spec fn inspected(
    url: Result<Option<JsonMemberView>, Seq<char>>,
    owner_token: Result<Option<JsonMemberView>, Seq<char>>,
) -> ControlFileInspectionView {
    match (url, owner_token) {
        (Ok(url), Ok(owner_token)) => {
            let valid = filled_member(url) && filled_member(owner_token);
            ControlFileInspectionView {
                exists: true,
                readable: true,
                valid,
                error: if valid {
                    None
                } else {
                    Some("control file is missing url or owner_token"@)
                },
            }
        },
        (Err(error), _) => ControlFileInspectionView {
            exists: true,
            readable: true,
            valid: false,
            error: Some(error),
        },
        (_, Err(error)) => ControlFileInspectionView {
            exists: true,
            readable: true,
            valid: false,
            error: Some(error),
        },
    }
}

/// What is said of a control file, by what it holds.
pub fn inspect_members(
    url: Result<Option<JsonMember>, String>,
    owner_token: Result<Option<JsonMember>, String>,
) -> (inspection: ControlFileInspection)
    ensures
        inspection@ == inspected(
            match url {
                Ok(url) => Ok(crate::model::opt_view(url)),
                Err(error) => Err(error@),
            },
            match owner_token {
                Ok(owner_token) => Ok(crate::model::opt_view(owner_token)),
                Err(error) => Err(error@),
            },
        ),
{
    match (url, owner_token) {
        (Ok(url), Ok(owner_token)) => {
            let has_url = is_filled(url);
            let has_token = is_filled(owner_token);
            let valid = has_url && has_token;
            ControlFileInspection {
                exists: true,
                readable: true,
                valid,
                error: if valid {
                    None
                } else {
                    Some("control file is missing url or owner_token".to_owned())
                },
            }
        },
        (Err(error), _) => ControlFileInspection {
            exists: true,
            readable: true,
            valid: false,
            error: Some(error),
        },
        (_, Err(error)) => ControlFileInspection {
            exists: true,
            readable: true,
            valid: false,
            error: Some(error),
        },
    }
}

/// What is said of the control file.
pub open spec fn control_file(content: ControlFileContentView) -> ControlFileInspectionView {
    match content {
        ControlFileContentView::Missing => ControlFileInspectionView {
            exists: false,
            readable: false,
            valid: false,
            error: Some("control file does not exist"@),
        },
        ControlFileContentView::Unreadable(error) => ControlFileInspectionView {
            exists: true,
            readable: false,
            valid: false,
            error: Some(error),
        },
        ControlFileContentView::Text(text) => inspected(
            crate::json::member_of(text, "url"@),
            crate::json::member_of(text, "owner_token"@),
        ),
    }
}

/// What is said of the control file.
pub fn inspect_control_file(content: ControlFileContent) -> (inspection: ControlFileInspection)
    ensures
        inspection@ == control_file(content@),
{
    match content {
        ControlFileContent::Missing => ControlFileInspection {
            exists: false,
            readable: false,
            valid: false,
            error: Some("control file does not exist".to_owned()),
        },
        ControlFileContent::Unreadable(error) => ControlFileInspection {
            exists: true,
            readable: false,
            valid: false,
            error: Some(error),
        },
        ControlFileContent::Text(text) => inspect_members(
            json_member(text.as_str(), "url"),
            json_member(text.as_str(), "owner_token"),
        ),
    }
}

/// All that is said of the browser's surroundings.
#[derive(Debug, PartialEq, Eq)]
pub struct DesktopDoctorReport {
    pub profile: String,
    pub profile_dir: String,
    pub profile_dir_exists: bool,
    pub control_file: String,
    pub control_file_source: String,
    pub control_file_exists: bool,
    pub control_file_readable: bool,
    pub control_file_valid: bool,
    pub control_file_error: Option<String>,
    pub target_status: String,
    pub platform: String,
    pub webview_runtime: String,
    pub webview_hint: String,
    pub webview_checks: Vec<DesktopDoctorCheck>,
}

/// Model of [`DesktopDoctorReport`].
#[verifier::ext_equal]
pub struct DesktopDoctorReportView {
    pub profile: Seq<char>,
    pub profile_dir: Seq<char>,
    pub profile_dir_exists: bool,
    pub control_file: Seq<char>,
    pub control_file_source: Seq<char>,
    pub control_file_exists: bool,
    pub control_file_readable: bool,
    pub control_file_valid: bool,
    pub control_file_error: Option<Seq<char>>,
    pub target_status: Seq<char>,
    pub platform: Seq<char>,
    pub webview_runtime: Seq<char>,
    pub webview_hint: Seq<char>,
    pub webview_checks: Seq<DesktopDoctorCheckView>,
}

impl View for DesktopDoctorReport {
    type V = DesktopDoctorReportView;

    open spec fn view(&self) -> DesktopDoctorReportView {
        DesktopDoctorReportView {
            profile: self.profile@,
            profile_dir: self.profile_dir@,
            profile_dir_exists: self.profile_dir_exists,
            control_file: self.control_file@,
            control_file_source: self.control_file_source@,
            control_file_exists: self.control_file_exists,
            control_file_readable: self.control_file_readable,
            control_file_valid: self.control_file_valid,
            control_file_error: crate::model::opt_view(self.control_file_error),
            target_status: self.target_status@,
            platform: self.platform@,
            webview_runtime: self.webview_runtime@,
            webview_hint: self.webview_hint@,
            webview_checks: crate::model::views(self.webview_checks@),
        }
    }
}

/// What was found of the browser's surroundings.
#[derive(Debug, PartialEq, Eq)]
pub struct DoctorFindings {
    pub profile: String,
    pub profile_dir: String,
    pub profile_dir_exists: bool,
    pub given_control_file: Option<String>,
    pub default_control_file: String,
    pub control_file: ControlFileContent,
    pub has_url: bool,
    pub has_token: bool,
    pub platform: String,
    pub packages: Vec<PackageFinding>,
}

/// Model of [`DoctorFindings`].
#[verifier::ext_equal]
pub struct DoctorFindingsView {
    pub profile: Seq<char>,
    pub profile_dir: Seq<char>,
    pub profile_dir_exists: bool,
    pub given_control_file: Option<Seq<char>>,
    pub default_control_file: Seq<char>,
    pub control_file: ControlFileContentView,
    pub has_url: bool,
    pub has_token: bool,
    pub platform: Seq<char>,
    pub packages: Seq<PackageFindingView>,
}

impl View for DoctorFindings {
    type V = DoctorFindingsView;

    open spec fn view(&self) -> DoctorFindingsView {
        DoctorFindingsView {
            profile: self.profile@,
            profile_dir: self.profile_dir@,
            profile_dir_exists: self.profile_dir_exists,
            given_control_file: crate::model::opt_view(self.given_control_file),
            default_control_file: self.default_control_file@,
            control_file: self.control_file@,
            has_url: self.has_url,
            has_token: self.has_token,
            platform: self.platform@,
            packages: crate::model::views(self.packages@),
        }
    }
}

/// All that is said of the browser's surroundings.
pub open spec fn doctor_report(findings: DoctorFindingsView) -> DesktopDoctorReportView {
    let inspection = control_file(findings.control_file);
    DesktopDoctorReportView {
        profile: findings.profile,
        profile_dir: findings.profile_dir,
        profile_dir_exists: findings.profile_dir_exists,
        control_file: match findings.given_control_file {
            Some(path) => path,
            None => findings.default_control_file,
        },
        control_file_source: if findings.given_control_file is Some {
            "explicit"@
        } else {
            "profile"@
        },
        control_file_exists: inspection.exists,
        control_file_readable: inspection.readable,
        control_file_valid: inspection.valid,
        control_file_error: inspection.error,
        target_status: target_status(findings.has_url, findings.has_token, inspection.exists),
        platform: findings.platform,
        webview_runtime: webview_runtime(findings.platform),
        webview_hint: webview_hint(findings.platform),
        webview_checks: webview_checks(findings.platform, findings.packages),
    }
}

/// All that is said of the browser's surroundings.
pub fn desktop_doctor_report(findings: DoctorFindings) -> (report: DesktopDoctorReport)
    requires
        findings@.packages.len() == packages(findings@.platform).len(),
    ensures
        report@ == doctor_report(findings@),
{
    let explicit = findings.given_control_file.is_some();
    let control_file = match findings.given_control_file {
        Some(path) => path,
        None => findings.default_control_file,
    };
    let inspection = inspect_control_file(findings.control_file);
    let status = desktop_doctor_target_status(
        findings.has_url,
        findings.has_token,
        inspection.exists,
    );
    let os = findings.platform.as_str();
    DesktopDoctorReport {
        profile: findings.profile,
        profile_dir: findings.profile_dir,
        profile_dir_exists: findings.profile_dir_exists,
        control_file,
        control_file_source: if explicit {
            "explicit".to_owned()
        } else {
            "profile".to_owned()
        },
        control_file_exists: inspection.exists,
        control_file_readable: inspection.readable,
        control_file_valid: inspection.valid,
        control_file_error: inspection.error,
        target_status: status.to_owned(),
        webview_runtime: webview_runtime_for_os(os).to_owned(),
        webview_hint: webview_hint_for_os(os).to_owned(),
        webview_checks: webview_checks_for_os(os, &findings.packages),
        platform: findings.platform,
    }
}

/// A truth value as it is shown.
pub open spec fn yes_or_no(value: bool) -> Seq<char> {
    if value {
        "yes"@
    } else {
        "no"@
    }
}

/// A truth value as it is shown.
pub fn yes_no(value: bool) -> (text: &'static str)
    ensures
        text@ == yes_or_no(value),
{
    if value {
        "yes"
    } else {
        "no"
    }
}

/// What is said of the error of the control file.
pub open spec fn error_lines(error: Option<Seq<char>>) -> Seq<Seq<char>> {
    match error {
        Some(error) => seq![crate::cli::rows::row(seq!["control_file_error"@, error])],
        None => Seq::empty(),
    }
}

/// The lines that show what was looked at.
pub open spec fn check_lines(checks: Seq<DesktopDoctorCheckView>) -> Seq<Seq<char>> {
    Seq::new(
        checks.len(),
        |i: int|
            crate::cli::rows::row(
                seq!["webview_check"@, checks[i].name, checks[i].status, checks[i].detail],
            ),
    )
}

/// The lines that show all that is said of the browser's surroundings.
pub open spec fn report_lines(report: DesktopDoctorReportView) -> Seq<Seq<char>> {
    seq![
        crate::cli::rows::row(seq!["profile"@, report.profile]),
        crate::cli::rows::row(seq!["profile_dir"@, report.profile_dir]),
        crate::cli::rows::row(seq!["profile_dir_exists"@, yes_or_no(report.profile_dir_exists)]),
        crate::cli::rows::row(
            seq!["control_file"@, report.control_file, report.control_file_source],
        ),
        crate::cli::rows::row(seq!["control_file_exists"@, yes_or_no(report.control_file_exists)]),
        crate::cli::rows::row(
            seq!["control_file_readable"@, yes_or_no(report.control_file_readable)],
        ),
        crate::cli::rows::row(seq!["control_file_valid"@, yes_or_no(report.control_file_valid)]),
    ] + error_lines(report.control_file_error) + seq![
        crate::cli::rows::row(seq!["target_status"@, report.target_status]),
        crate::cli::rows::row(seq!["platform"@, report.platform]),
        crate::cli::rows::row(seq!["webview_runtime"@, report.webview_runtime]),
        crate::cli::rows::row(seq!["webview_hint"@, report.webview_hint]),
    ] + check_lines(report.webview_checks)
}

/// The lines that show all that is said of the browser's surroundings.
pub fn print_desktop_doctor_report(report: &DesktopDoctorReport) -> (lines: Vec<String>)
    ensures
        crate::model::views(lines@) == report_lines(report@),
{
    let mut lines: Vec<String> = Vec::new();
    lines.push(row2("profile", report.profile.as_str()));
    lines.push(row2("profile_dir", report.profile_dir.as_str()));
    lines.push(row2("profile_dir_exists", yes_no(report.profile_dir_exists)));
    lines.push(
        row3("control_file", report.control_file.as_str(), report.control_file_source.as_str()),
    );
    lines.push(row2("control_file_exists", yes_no(report.control_file_exists)));
    lines.push(row2("control_file_readable", yes_no(report.control_file_readable)));
    lines.push(row2("control_file_valid", yes_no(report.control_file_valid)));
    match &report.control_file_error {
        Some(error) => lines.push(row2("control_file_error", error.as_str())),
        None => {},
    }
    lines.push(row2("target_status", report.target_status.as_str()));
    lines.push(row2("platform", report.platform.as_str()));
    lines.push(row2("webview_runtime", report.webview_runtime.as_str()));
    lines.push(row2("webview_hint", report.webview_hint.as_str()));
    let ghost head = crate::model::views(lines@);
    let ghost checks = report@.webview_checks;
    assert(head + check_lines(checks) =~= report_lines(report@));
    for i in 0..report.webview_checks.len()
        invariant
            checks == crate::model::views(report.webview_checks@),
            crate::model::views(lines@) == head + check_lines(checks).take(i as int),
    {
        let check = &report.webview_checks[i];
        assert(checks[i as int] == check@);
        let ghost before = crate::model::views(lines@);
        lines.push(
            row4(
                "webview_check",
                check.name.as_str(),
                check.status.as_str(),
                check.detail.as_str(),
            ),
        );
        assert(crate::model::views(lines@) =~= head + check_lines(checks).take(i + 1));
    }
    assert(check_lines(checks).take(checks.len() as int) =~= check_lines(checks));
    lines
}

} // verus!
