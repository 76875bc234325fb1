use vstd::prelude::*;
use vstd::string::StrSliceExecFns;
use vstd::string::StringExecFns;

verus! {

/// The repeated-field container of the protobuf crate, in which the wire
/// message carries the parameter and environment lists. It is kept opaque;
/// `repeated_entries` names what it holds.
#[verifier::external_type_specification]
#[verifier::external_body]
#[verifier::reject_recursive_types(T)]
pub struct ExRepeatedField<T>(protobuf::RepeatedField<T>);

/// The strings a `protobuf::RepeatedField<String>` holds, in order.
pub uninterp spec fn repeated_entries(r: protobuf::RepeatedField<String>) -> Seq<Seq<char>>;

/// Relies on protobuf's `RepeatedField::new`: the new container is empty.
#[verifier::external_body]
fn repeated_new() -> (r: protobuf::RepeatedField<String>)
    ensures
        repeated_entries(r) == Seq::<Seq<char>>::empty(),
{
    protobuf::RepeatedField::new()
}

/// Relies on protobuf's `RepeatedField::push`: the value is appended at the
/// end and everything already held stays in place.
#[verifier::external_body]
fn repeated_push(r: &mut protobuf::RepeatedField<String>, value: String)
    ensures
        repeated_entries(*final(r)) == repeated_entries(*old(r)).push(value@),
{
    r.push(value)
}

/// Relies on protobuf's `RepeatedField::to_vec`: a copy of the entries, in
/// order.
#[verifier::external_body]
fn repeated_to_vec(r: &protobuf::RepeatedField<String>) -> (v: Vec<String>)
    ensures
        v@.len() == repeated_entries(*r).len(),
        forall|i: int| 0 <= i < v@.len() ==> #[trigger] v@[i]@ == repeated_entries(*r)[i],
{
    r.to_vec()
}

/// The views of a sequence of strings.
pub open spec fn seq_views(v: Seq<String>) -> Seq<Seq<char>> {
    v.map_values(|s: String| s@)
}

/// A command submission, as handed to the execution service: who asks, what
/// to run, with which parameters and environment, and the per-request
/// companion socket path for optional out-of-band I/O.
pub struct ExecutionRequest {
    pub process_id: u32,
    pub command: String,
    pub parameters: protobuf::RepeatedField<String>,
    pub environments: protobuf::RepeatedField<String>,
    pub sockpath: String,
}

impl ExecutionRequest {
    /// A request is well formed when its command is non-empty.
    pub open spec fn wf(&self) -> bool {
        self.command@.len() > 0
    }

    /// The parameter list the request carries.
    pub open spec fn parameter_entries(&self) -> Seq<Seq<char>> {
        repeated_entries(self.parameters)
    }

    /// The environment list the request carries.
    pub open spec fn environment_entries(&self) -> Seq<Seq<char>> {
        repeated_entries(self.environments)
    }

    /// A copy of the carried parameter list as plain strings.
    pub fn parameters_vec(&self) -> (v: Vec<String>)
        ensures
            seq_views(v@) =~= self.parameter_entries(),
    {
        repeated_to_vec(&self.parameters)
    }

    /// A copy of the carried environment list as plain strings.
    pub fn environments_vec(&self) -> (v: Vec<String>)
        ensures
            seq_views(v@) =~= self.environment_entries(),
    {
        repeated_to_vec(&self.environments)
    }
}

/// Copy `items` into a fresh repeated field, keeping order.
fn fill_repeated(items: &Vec<String>) -> (r: protobuf::RepeatedField<String>)
    ensures
        repeated_entries(r) =~= seq_views(items@),
{
    let mut r = repeated_new();
    let mut i: usize = 0;
    while i < items.len()
        invariant
            i <= items.len(),
            repeated_entries(r) =~= seq_views(items@).take(i as int),
        decreases items.len() - i,
    {
        repeated_push(&mut r, items[i].clone());
        assert(seq_views(items@).take(i + 1 as int) =~= seq_views(items@).take(i as int).push(
            items@[i as int]@,
        ));
        i = i + 1;
    }
    assert(seq_views(items@).take(items@.len() as int) =~= seq_views(items@));
    r
}

/// Build the submission request: every parameter and every environment entry
/// is carried, in its original order, unmodified.
pub fn build_request(
    process_id: u32,
    command: String,
    parameters: &Vec<String>,
    environments: &Vec<String>,
    sockpath: String,
) -> (r: ExecutionRequest)
    requires
        command@.len() > 0,
    ensures
        r.wf(),
        r.process_id == process_id,
        r.command@ == command@,
        r.parameter_entries() =~= seq_views(parameters@),
        r.environment_entries() =~= seq_views(environments@),
        r.sockpath@ == sockpath@,
{
    ExecutionRequest {
        process_id,
        command,
        parameters: fill_repeated(parameters),
        environments: fill_repeated(environments),
        sockpath,
    }
}

/// The characters after the last path separator: the longest suffix of
/// `path` that holds no `'/'`.
pub open spec fn basename_of(path: Seq<char>) -> Seq<char>
    decreases path.len(),
{
    if path.len() == 0 || path.last() == '/' {
        Seq::empty()
    } else {
        basename_of(path.drop_last()).push(path.last())
    }
}

proof fn lemma_basename_is_suffix(path: Seq<char>, from: int)
    requires
        0 <= from <= path.len(),
        from == 0 || path[from - 1] == '/',
        forall|j: int| from <= j < path.len() ==> path[j] != '/',
    ensures
        basename_of(path) =~= path.subrange(from, path.len() as int),
    decreases path.len(),
{
    if from == path.len() {
        assert(path.len() == 0 || path.last() == '/');
    } else {
        assert(path.last() != '/');
        lemma_basename_is_suffix(path.drop_last(), from);
        assert(basename_of(path) =~= path.subrange(from, path.len() as int));
    }
}

/// The program name a command path stands for: everything after the last
/// `'/'`, or the whole path when it holds none.
pub fn program_name(path: &str) -> (r: String)
    requires
        path@.len() > 0,
        path@.last() != '/',
    ensures
        r@ =~= basename_of(path@),
        r@.len() > 0,
{
    let n = path.unicode_len();
    let mut start: usize = 0;
    let mut i: usize = 0;
    while i < n
        invariant
            n == path@.len(),
            0 <= start <= i <= n,
            start == 0 || path@[start - 1] == '/',
            forall|j: int| start <= j < i ==> path@[j] != '/',
        decreases n - i,
    {
        if path.get_char(i) == '/' {
            start = i + 1;
        }
        i = i + 1;
    }
    proof {
        lemma_basename_is_suffix(path@, start as int);
    }
    let name = path.substring_char(start, n);
    String::from_str(name)
}

/// The companion socket path that a request derives inside its fresh,
/// call-scoped temporary directory.
pub fn companion_sock_path(tmp_dir: &str) -> (r: String)
    ensures
        r@ == tmp_dir@ + "/remote_client_occlum.sock"@,
{
    let mut s = String::from_str(tmp_dir);
    s.append("/remote_client_occlum.sock");
    s
}

} // verus!
