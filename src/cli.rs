//! The command line's logic: its commands, the checks on user input, and the specification a
//! new deployment turns into.
use vstd::prelude::*;

use crate::crd::{CustomImage, H2OSpec, Resources};
use crate::text::{concat, concat3, parsed_i64, parse_i64};

verus! {

#[verifier::external_type_specification]
#[verifier::external_body]
pub struct ExPathBuf(std::path::PathBuf);

/// Whether `regex` finds a match of `pattern` in `text`, the pattern once compiled.
pub uninterp spec fn regex_is_match(pattern: Seq<char>, text: Seq<char>) -> bool;

/// Relies on `regex::Regex::new`, which compiles `pattern` or fails (`None` here) on bad syntax
/// or a pattern over the size limit, neither of which holds of `MEMORY_PATTERN`; and on
/// `Regex::is_match`, which says whether the compiled pattern matches somewhere in `text`.
#[verifier::external_body]
fn pattern_matches(pattern: &str, text: &str) -> (r: Option<bool>)
    ensures
        pattern@ == MEMORY_PATTERN@ ==> r is Some,
        r is Some ==> r->Some_0 == regex_is_match(pattern@, text@),
{
    match regex::Regex::new(pattern) {
        Ok(re) => Some(re.is_match(text)),
        Err(_) => None,
    }
}

/// Relies on `names::Generator::next` with the default word lists, which always returns a name
/// made of an adjective, a dash and a noun chosen at random.
#[verifier::external_body]
fn generated_name() -> (r: Option<String>)
    ensures
        r is Some && r->Some_0@.len() > 0,
{
    let mut generator = names::Generator::default();
    generator.next()
}

/// The platform's pattern for memory quantities.
pub const MEMORY_PATTERN: &'static str = "^([+-]?[0-9.]+)([eEinumkKMGTP]*[-+]?[0-9]*)$";

pub open spec fn memory_error_text() -> Seq<char> {
    "Memory requirement must match the following pattern: ^([+-]?[0-9.]+)([eEinumkKMGTP]*[-+]?[0-9]*)$. For example 1Gi or 1024Mi."@
}

pub open spec fn positive_error_text() -> Seq<char> {
    "Error: The number provided must be greater than zero."@
}

pub open spec fn percentage_error_text() -> Seq<char> {
    "Error: The number must be withing range <1,100>."@
}

pub open spec fn not_a_number_text(input: Seq<char>) -> Seq<char> {
    "Error: '"@ + input + "' is not a whole number."@
}

/// Commands the user can give.
pub enum Command {
    Deployment(NewDeploymentSpecification),
    Undeploy(ExistingDeploymentSpecification),
    Ingress(ExistingDeploymentSpecification),
}

/// A new H2O deployment as the user asked for it.
pub struct NewDeploymentSpecification {
    /// Name of the deployment; generated when the user gives none.
    pub name: String,
    /// Namespace to deploy to; the kubeconfig's default when absent.
    pub namespace: Option<String>,
    /// Share of the container's memory for the H2O JVM, in percent.
    pub memory_percentage: u8,
    /// Memory of each H2O node: the pod's request and limit.
    pub memory: String,
    /// CPUs of each H2O node: the pod's request and limit.
    pub num_cpu: u32,
    /// Number of H2O nodes.
    pub num_h2o_nodes: u32,
    /// Path of the kubeconfig file, when not found in the usual places.
    pub kubeconfig_path: Option<std::path::PathBuf>,
    /// Version of the official image, when no custom image is given.
    pub version: Option<String>,
    /// Custom image to deploy.
    pub custom_image: Option<String>,
    /// Command for the custom image.
    pub custom_command: Option<String>,
}

impl NewDeploymentSpecification {
    pub fn new(
        name: String,
        namespace: Option<String>,
        version: Option<String>,
        memory_percentage: u8,
        memory: String,
        num_cpu: u32,
        num_h2o_nodes: u32,
        kubeconfig_path: Option<std::path::PathBuf>,
        custom_image: Option<String>,
        custom_command: Option<String>,
    ) -> (r: Self)
        ensures
            r.name == name,
            r.namespace == namespace,
            r.version == version,
            r.memory_percentage == memory_percentage,
            r.memory == memory,
            r.num_cpu == num_cpu,
            r.num_h2o_nodes == num_h2o_nodes,
            r.kubeconfig_path == kubeconfig_path,
            r.custom_image == custom_image,
            r.custom_command == custom_command,
    {
        NewDeploymentSpecification {
            name,
            namespace,
            version,
            memory_percentage,
            memory,
            num_cpu,
            num_h2o_nodes,
            kubeconfig_path,
            custom_image,
            custom_command,
        }
    }
}

/// An existing deployment the user refers to.
pub struct ExistingDeploymentSpecification {
    pub name: String,
    pub namespace: Option<String>,
    pub kubeconfig_path: Option<std::path::PathBuf>,
}

impl ExistingDeploymentSpecification {
    pub fn new(name: String, namespace: Option<String>, kubeconfig_path: Option<std::path::PathBuf>) -> (r: Self)
        ensures
            r.name == name,
            r.namespace == namespace,
            r.kubeconfig_path == kubeconfig_path,
    {
        ExistingDeploymentSpecification { name, namespace, kubeconfig_path }
    }
}

/// A deployment with every value filled in: name, namespace, sizes and the kubeconfig to use.
pub struct DeploymentSpecification {
    pub name: String,
    pub namespace: String,
    pub memory_percentage: u8,
    pub memory: String,
    pub num_cpu: u32,
    pub num_h2o_nodes: u32,
    pub kubeconfig_path: Option<std::path::PathBuf>,
}

impl DeploymentSpecification {
    pub fn new(
        name: String,
        namespace: String,
        memory_percentage: u8,
        memory: String,
        num_cpu: u32,
        num_h2o_nodes: u32,
        kubeconfig_path: Option<std::path::PathBuf>,
    ) -> (r: Self)
        ensures
            r.name == name,
            r.namespace == namespace,
            r.memory_percentage == memory_percentage,
            r.memory == memory,
            r.num_cpu == num_cpu,
            r.num_h2o_nodes == num_h2o_nodes,
            r.kubeconfig_path == kubeconfig_path,
    {
        DeploymentSpecification { name, namespace, memory_percentage, memory, num_cpu, num_h2o_nodes, kubeconfig_path }
    }
}

/// Why user input could not be turned into a command.
#[derive(Debug, Clone, Copy, PartialEq, Eq, Structural)]
pub enum CommandErrorKind {
    UnknownCommand,
}

/// Error while processing user input.
#[derive(Debug, Clone, Copy, PartialEq, Eq, Structural)]
pub struct UserInputError {
    pub kind: CommandErrorKind,
}

impl UserInputError {
    pub fn new(kind: CommandErrorKind) -> (r: Self)
        ensures
            r.kind == kind,
    {
        UserInputError { kind }
    }
}

/// Accepts a path that names a regular file; `is_file` is what the file system says of it.
pub fn validate_path(user_provided_path: String, is_file: bool) -> (r: Result<(), String>)
    ensures
        is_file ==> r is Ok,
        !is_file ==> (r is Err && r->Err_0@ == "Invalid file path: '"@ + user_provided_path@ + "'"@),
{
    if is_file {
        Ok(())
    } else {
        Err(concat3("Invalid file path: '", user_provided_path.as_str(), "'"))
    }
}

/// Accepts a whole number greater than zero.
pub fn validate_int_greater_than_zero(input: String) -> (r: Result<(), String>)
    requires
        input@.len() < usize::MAX,
    ensures
        parsed_i64(input@) matches Some(n) && n >= 1 ==> r is Ok,
        parsed_i64(input@) matches Some(n) && n < 1 ==> (r is Err && r->Err_0@ == positive_error_text()),
        parsed_i64(input@) is None ==> (r is Err && r->Err_0@ == not_a_number_text(input@)),
{
    match parse_i64(input.as_str()) {
        Some(n) => {
            if n < 1 {
                Err(String::from_str("Error: The number provided must be greater than zero."))
            } else {
                Ok(())
            }
        },
        None => Err(concat3("Error: '", input.as_str(), "' is not a whole number.")),
    }
}

/// Accepts a number of nodes: a whole number greater than zero.
pub fn validate_greater_than_zero(input: String) -> (r: Result<(), String>)
    requires
        input@.len() < usize::MAX,
    ensures
        parsed_i64(input@) matches Some(n) && n >= 1 ==> r is Ok,
        parsed_i64(input@) matches Some(n) && n < 1 ==> (r is Err && r->Err_0@ == positive_error_text()),
        parsed_i64(input@) is None ==> (r is Err && r->Err_0@ == not_a_number_text(input@)),
{
    validate_int_greater_than_zero(input)
}

/// Accepts a memory percentage: a whole number from 1 to 100.
pub fn validate_percentage(input: String) -> (r: Result<(), String>)
    requires
        input@.len() < usize::MAX,
    ensures
        parsed_i64(input@) matches Some(n) && 1 <= n <= 100 ==> r is Ok,
        parsed_i64(input@) matches Some(n) && !(1 <= n <= 100) ==> (r is Err && r->Err_0@ == percentage_error_text()),
        parsed_i64(input@) is None ==> (r is Err && r->Err_0@ == not_a_number_text(input@)),
{
    match parse_i64(input.as_str()) {
        Some(n) => {
            if n < 1 || n > 100 {
                Err(String::from_str("Error: The number must be withing range <1,100>."))
            } else {
                Ok(())
            }
        },
        None => Err(concat3("Error: '", input.as_str(), "' is not a whole number.")),
    }
}

/// The verdict on a memory quantity, given whether it matches `MEMORY_PATTERN`.
pub fn memory_verdict(matched: bool) -> (r: Result<(), String>)
    ensures
        matched ==> r is Ok,
        !matched ==> (r is Err && r->Err_0@ == memory_error_text()),
{
    if matched {
        Ok(())
    } else {
        Err(String::from_str(
            "Memory requirement must match the following pattern: ^([+-]?[0-9.]+)([eEinumkKMGTP]*[-+]?[0-9]*)$. For example 1Gi or 1024Mi.",
        ))
    }
}

/// Accepts a memory quantity in the platform's format, such as `4Gi`.
pub fn validate_memory(input: String) -> (r: Result<(), String>)
    ensures
        r is Ok <==> regex_is_match(MEMORY_PATTERN@, input@),
        r is Err ==> r->Err_0@ == memory_error_text(),
{
    match pattern_matches(MEMORY_PATTERN, input.as_str()) {
        Some(matched) => memory_verdict(matched),
        None => memory_verdict(false),
    }
}

/// The name of a new deployment: the one given, else `h2o-` and a generated name.
pub fn deployment_name(given: Option<String>) -> (r: String)
    ensures
        given matches Some(n) ==> r == n,
        given is None ==> r@.len() > 4 && r@.subrange(0, 4) == "h2o-"@,
{
    match given {
        Some(n) => n,
        None => {
            let generated = match generated_name() {
                Some(g) => g,
                None => String::new(),
            };
            let r = concat("h2o-", generated.as_str());
            proof {
                reveal_strlit("h2o-");
            }
            assert(r@.subrange(0, 4) =~= "h2o-"@);
            r
        },
    }
}

/// The specification of the H2O cluster that a new deployment asks for: a custom image, with
/// its command, when one was given, else the official image of the given version.
pub fn h2o_spec_of(user_spec: NewDeploymentSpecification) -> (r: H2OSpec)
    ensures
        r.nodes == user_spec.num_h2o_nodes,
        r.version == user_spec.version,
        r.resources.cpu == user_spec.num_cpu,
        r.resources.memory == user_spec.memory,
        r.resources.memory_percentage == Some(user_spec.memory_percentage),
        user_spec.custom_image is None ==> r.custom_image is None,
        user_spec.custom_image matches Some(img) ==> (r.custom_image matches Some(c) && c.image == img && c.command
            == user_spec.custom_command),
{
    let resources = Resources::new(user_spec.num_cpu, user_spec.memory, Some(user_spec.memory_percentage));
    let custom_image = match user_spec.custom_image {
        None => None,
        Some(img) => Some(CustomImage::new(img, user_spec.custom_command)),
    };
    H2OSpec::new(user_spec.num_h2o_nodes, user_spec.version, resources, custom_image)
}

/// The line that shows how to connect to the cluster from Python through an ingress.
pub fn python_connect_hint(ip: &str, path: &str) -> (r: String)
    ensures
        r@ == "Python: 'h2o.connect(url=\"http://"@ + ip@ + ":80"@ + path@ + "\")'"@,
{
    let head = concat3("Python: 'h2o.connect(url=\"http://", ip, ":80");
    concat3(head.as_str(), path, "\")'")
}

/// The line that shows how to connect to the cluster from R through an ingress; the path must
/// start with `/`, which the context path leaves out.
pub fn r_connect_hint(ip: &str, path: &str) -> (r: Option<String>)
    ensures
        path@.len() > 0 && path@[0] == '/' ==> (r is Some && r->Some_0@ == "R: 'h2o.connect(ip = \""@ + ip@
            + "\", context_path = \""@ + path@.drop_first() + "\", port=80)'"@),
        !(path@.len() > 0 && path@[0] == '/') ==> r is None,
{
    let len = path.unicode_len();
    if len == 0 || path.get_char(0) != '/' {
        return None;
    }
    let context = path.substring_char(1, len);
    assert(context@ =~= path@.drop_first());
    let head = concat3("R: 'h2o.connect(ip = \"", ip, "\", context_path = \"");
    Some(concat3(head.as_str(), context, "\", port=80)'"))
}

} // verus!
