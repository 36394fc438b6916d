use vstd::prelude::*;
use vstd::string::*;

verus! {

/// A curve point, each coordinate a field element written in hexadecimal.
pub struct Point {
    pub x: String,
    pub y: String,
}

/// A request to a relayer to apply its blinding to `point` for the claim `id`.
pub struct CheckRequest {
    pub point: Point,
    pub id: u64,
    pub is_fund: bool,
}

/// What the discovery scan over the relayers asks for next.
#[derive(Debug, PartialEq, Eq, Structural)]
pub enum FindAction {
    /// Run the check round trip with the relayer at this index.
    Check(usize),
    /// The relayer at this index registered the finalized point.
    Found(usize),
    /// No relayer matched.
    Exhausted,
}

/// The progress of a discovery scan over `total` relayers, in the order given:
/// `checked` round trips done, and the index of the first match once there is one.
pub struct FindScan {
    pub total: usize,
    pub checked: usize,
    pub found: Option<usize>,
}

impl FindScan {
    pub open spec fn wf(self) -> bool {
        &&& self.checked <= self.total
        &&& self.found matches Some(i) ==> i + 1 == self.checked
    }

    pub open spec fn action_spec(self) -> FindAction {
        match self.found {
            Some(i) => FindAction::Found(i),
            None => if self.checked < self.total {
                FindAction::Check(self.checked)
            } else {
                FindAction::Exhausted
            },
        }
    }

    pub open spec fn record_spec(self, registered: bool) -> FindScan {
        FindScan {
            total: self.total,
            checked: (self.checked + 1) as usize,
            found: if registered {
                Some(self.checked)
            } else {
                None
            },
        }
    }

    /// The state after feeding `results` in turn, each while a check is asked for; the
    /// ones offered after the scan stopped are not looked at.
    pub open spec fn run(total: usize, results: Seq<bool>) -> FindScan
        decreases results.len(),
    {
        if results.len() == 0 {
            FindScan { total, checked: 0, found: None }
        } else {
            let s = FindScan::run(total, results.drop_last());
            if s.action_spec() is Check {
                s.record_spec(results.last())
            } else {
                s
            }
        }
    }

    pub fn new(total: usize) -> (s: FindScan)
        ensures
            s == FindScan::run(total, Seq::empty()),
            s.wf(),
    {
        FindScan { total, checked: 0, found: None }
    }

    pub fn next_action(&self) -> (a: FindAction)
        requires
            self.wf(),
        ensures
            a == self.action_spec(),
    {
        match self.found {
            Some(i) => FindAction::Found(i),
            None => if self.checked < self.total {
                FindAction::Check(self.checked)
            } else {
                FindAction::Exhausted
            },
        }
    }

    /// Records whether the finalized point of the relayer just checked is registered.
    pub fn record(&mut self, registered: bool)
        requires
            old(self).wf(),
            old(self).action_spec() is Check,
        ensures
            *final(self) == old(self).record_spec(registered),
            final(self).wf(),
    {
        if registered {
            self.found = Some(self.checked);
        }
        self.checked = self.checked + 1;
    }
}

proof fn lemma_run_prefix(total: usize, s: Seq<bool>)
    requires
        s.len() <= total,
    ensures
        FindScan::run(total, s).wf(),
        FindScan::run(total, s).total == total,
        (exists|j: int| 0 <= j < s.len() && s[j]) ==> ({
            let st = FindScan::run(total, s);
            &&& st.found matches Some(i)
            &&& i < s.len()
            &&& s[i as int]
            &&& forall|j: int| 0 <= j < i ==> !s[j]
        }),
        (forall|j: int| 0 <= j < s.len() ==> !s[j]) ==> FindScan::run(total, s).found is None
            && FindScan::run(total, s).checked == s.len(),
    decreases s.len(),
{
    if s.len() > 0 {
        let p = s.drop_last();
        lemma_run_prefix(total, p);
        if exists|j: int| 0 <= j < p.len() && p[j] {
            let j = choose|j: int| 0 <= j < p.len() && p[j];
            assert(s[j]);
            let i = FindScan::run(total, p).found.unwrap();
            assert(s[i as int] == p[i as int]);
            assert forall|k: int| 0 <= k < i implies !s[k] by {
                assert(s[k] == p[k]);
            }
        } else {
            assert forall|j: int| 0 <= j < p.len() implies !s[j] by {
                assert(s[j] == p[j]);
            }
        }
    }
}

/// Discovery returns the first relayer, in the order given, whose finalized point is
/// registered, after exactly as many check round trips as its position plus one, and none
/// after checking every relayer when no point is registered.
pub proof fn find_returns_first_match(total: usize, results: Seq<bool>)
    requires
        results.len() == total,
    ensures
        ({
            let end = FindScan::run(total, results);
            &&& (exists|i: int| 0 <= i < total && results[i]) ==> ({
                &&& end.action_spec() matches FindAction::Found(i)
                &&& results[i as int]
                &&& forall|j: int| 0 <= j < i ==> !results[j]
                &&& end.checked == i + 1
            })
            &&& (forall|i: int| 0 <= i < total ==> !results[i]) ==> end.action_spec()
                == FindAction::Exhausted && end.checked == total
        }),
{
    lemma_run_prefix(total, results);
}

/// One call of the blind-point service.
pub enum BlindStep {
    /// Blind an email address with the client's secret.
    Initiate { email_addr: String, client_rand: String },
    /// Apply the relayer's standing secret to a blinded point.
    Apply { point: Point, relayer_rand: String },
    /// Apply the client's secret again to the relayer's answer.
    Finalize { point: Point, client_rand: String },
}

/// The command-line arguments of the service for one step, run in `circuits_dir` and
/// writing its point to `output`.
pub open spec fn step_args_spec(circuits_dir: Seq<char>, step: BlindStep, output: Seq<char>) -> Seq<
    Seq<char>,
> {
    match step {
        BlindStep::Initiate { email_addr, client_rand } => seq![
            "--cwd"@,
            circuits_dir,
            "psi-step1"@,
            "--email-addr"@,
            email_addr@,
            "--client-rand"@,
            client_rand@,
            "--output"@,
            output,
        ],
        BlindStep::Apply { point, relayer_rand } => seq![
            "--cwd"@,
            circuits_dir,
            "psi-step2"@,
            "--x"@,
            point.x@,
            "--y"@,
            point.y@,
            "--relayer-rand"@,
            relayer_rand@,
            "--output"@,
            output,
        ],
        BlindStep::Finalize { point, client_rand } => seq![
            "--cwd"@,
            circuits_dir,
            "psi-step3"@,
            "--x"@,
            point.x@,
            "--y"@,
            point.y@,
            "--client-rand"@,
            client_rand@,
            "--output"@,
            output,
        ],
    }
}

pub open spec fn views(v: Seq<String>) -> Seq<Seq<char>> {
    v.map_values(|s: String| s@)
}

fn push_arg(args: &mut Vec<String>, a: &str)
    ensures
        views(final(args)@) == views(old(args)@).push(a@),
{
    args.push(String::from_str(a));
    assert(views(final(args)@) =~= views(old(args)@).push(a@));
}

/// The arguments that run one step of the blind-point service. Each value is its own
/// argument, so an address or a path with spaces in it stays whole.
pub fn blind_step_args(circuits_dir: &str, step: &BlindStep, output: &str) -> (r: Vec<String>)
    ensures
        views(r@) == step_args_spec(circuits_dir@, *step, output@),
{
    let mut args: Vec<String> = Vec::new();
    assert(views(args@) =~= seq![]);
    push_arg(&mut args, "--cwd");
    push_arg(&mut args, circuits_dir);
    match step {
        BlindStep::Initiate { email_addr, client_rand } => {
            push_arg(&mut args, "psi-step1");
            push_arg(&mut args, "--email-addr");
            push_arg(&mut args, email_addr.as_str());
            push_arg(&mut args, "--client-rand");
            push_arg(&mut args, client_rand.as_str());
        },
        BlindStep::Apply { point, relayer_rand } => {
            push_arg(&mut args, "psi-step2");
            push_arg(&mut args, "--x");
            push_arg(&mut args, point.x.as_str());
            push_arg(&mut args, "--y");
            push_arg(&mut args, point.y.as_str());
            push_arg(&mut args, "--relayer-rand");
            push_arg(&mut args, relayer_rand.as_str());
        },
        BlindStep::Finalize { point, client_rand } => {
            push_arg(&mut args, "psi-step3");
            push_arg(&mut args, "--x");
            push_arg(&mut args, point.x.as_str());
            push_arg(&mut args, "--y");
            push_arg(&mut args, point.y.as_str());
            push_arg(&mut args, "--client-rand");
            push_arg(&mut args, client_rand.as_str());
        },
    }
    push_arg(&mut args, "--output");
    push_arg(&mut args, output);
    assert(views(args@) =~= step_args_spec(circuits_dir@, *step, output@));
    args
}

} // verus!
