//! Planning: the ordered commands that carry out a wipe method. Nothing is
//! executed here.

use vstd::prelude::*;
use crate::text::same_text;

verus! {

/// The supported wipe methods.
#[derive(Debug, Clone, Copy, PartialEq, Eq, Structural)]
pub enum WipeMethod {
    Dd,
    Blkdiscard,
    Hdparm,
    Nvme,
}

/// A method name outside `dd`, `blkdiscard`, `hdparm` and `nvme`.
#[derive(Debug, PartialEq, Eq)]
pub struct UnknownMethod {
    pub name: String,
}

/// What a planned command is for.
#[derive(Debug, Clone, Copy, PartialEq, Eq, Structural)]
pub enum CommandIntent {
    /// One pass of random data over the device.
    RandomOverwrite,
    /// The final pass of zeros.
    ZeroFill,
    /// Discard of every block.
    Discard,
    /// ATA inspection and secure erase; shown for manual execution only.
    SecureEraseNotice,
    /// NVMe sanitize.
    Sanitize,
}

/// One planned command; `ordinal` counts from 1 up to `of`, the plan's length.
#[derive(Debug, PartialEq, Eq)]
pub struct PlannedCommand {
    pub text: String,
    pub ordinal: usize,
    pub of: usize,
    pub intent: CommandIntent,
}

/// A planned command as a value.
pub struct CommandView {
    pub text: Seq<char>,
    pub ordinal: nat,
    pub of: nat,
    pub intent: CommandIntent,
}

impl View for PlannedCommand {
    type V = CommandView;

    open spec fn view(&self) -> CommandView {
        CommandView { text: self.text@, ordinal: self.ordinal as nat, of: self.of as nat, intent: self.intent }
    }
}

impl PlannedCommand {
    /// Commands that are only ever shown, never issued.
    pub open spec fn is_informational(&self) -> bool {
        self.intent is SecureEraseNotice
    }
}

pub open spec fn method_of(name: Seq<char>) -> Option<WipeMethod> {
    if name == "dd"@ {
        Some(WipeMethod::Dd)
    } else if name == "blkdiscard"@ {
        Some(WipeMethod::Blkdiscard)
    } else if name == "hdparm"@ {
        Some(WipeMethod::Hdparm)
    } else if name == "nvme"@ {
        Some(WipeMethod::Nvme)
    } else {
        None
    }
}

/// Reads a method name; any other name is rejected, never defaulted.
pub fn parse_method(name: &str) -> (r: Result<WipeMethod, UnknownMethod>)
    ensures
        method_of(name@) is Some ==> r == Ok::<WipeMethod, UnknownMethod>(method_of(name@)->0),
        method_of(name@) is None ==> r is Err && r->Err_0.name@ == name@,
{
    if same_text(name, "dd") {
        Ok(WipeMethod::Dd)
    } else if same_text(name, "blkdiscard") {
        Ok(WipeMethod::Blkdiscard)
    } else if same_text(name, "hdparm") {
        Ok(WipeMethod::Hdparm)
    } else if same_text(name, "nvme") {
        Ok(WipeMethod::Nvme)
    } else {
        Err(UnknownMethod { name: String::from_str(name) })
    }
}

pub open spec fn digit(d: nat) -> char {
    seq!['0', '1', '2', '3', '4', '5', '6', '7', '8', '9'][d as int]
}

/// Decimal notation of `n`, without leading zeros.
pub open spec fn decimal(n: nat) -> Seq<char>
    decreases n,
{
    if n < 10 {
        seq![digit(n)]
    } else {
        decimal(n / 10) + seq![digit(n % 10)]
    }
}

fn digit_text(d: u8) -> (r: &'static str)
    requires
        d < 10,
    ensures
        r@ == seq![digit(d as nat)],
{
    proof {
        reveal_strlit("0");
        reveal_strlit("1");
        reveal_strlit("2");
        reveal_strlit("3");
        reveal_strlit("4");
        reveal_strlit("5");
        reveal_strlit("6");
        reveal_strlit("7");
        reveal_strlit("8");
        reveal_strlit("9");
    }
    match d {
        0 => "0",
        1 => "1",
        2 => "2",
        3 => "3",
        4 => "4",
        5 => "5",
        6 => "6",
        7 => "7",
        8 => "8",
        _ => "9",
    }
}

fn decimal_text(n: u8) -> (r: String)
    ensures
        r@ == decimal(n as nat),
{
    let mut s = String::new();
    if n >= 100 {
        s.append(digit_text(n / 100));
        s.append(digit_text(n / 10 % 10));
        s.append(digit_text(n % 10));
        proof {
            let tens = (n / 10) as nat;
            assert(tens / 10 == n / 100 && tens % 10 == n / 10 % 10);
            assert(decimal((n / 100) as nat) == seq![digit((n / 100) as nat)]);
            assert(decimal(tens) == decimal((n / 100) as nat) + seq![digit((n / 10 % 10) as nat)]);
            assert(decimal(n as nat) == decimal(tens) + seq![digit((n % 10) as nat)]);
            assert(s@ =~= decimal(n as nat));
        }
    } else if n >= 10 {
        s.append(digit_text(n / 10));
        s.append(digit_text(n % 10));
        proof {
            assert(decimal((n / 10) as nat) == seq![digit((n / 10) as nat)]);
            assert(decimal(n as nat) == decimal((n / 10) as nat) + seq![digit((n % 10) as nat)]);
            assert(s@ =~= decimal(n as nat));
        }
    } else {
        s.append(digit_text(n));
        proof {
            assert(s@ =~= decimal(n as nat));
        }
    }
    s
}

pub open spec fn random_pass_text(device: Seq<char>, pass: nat, passes: nat) -> Seq<char> {
    "dd if=/dev/urandom of="@ + device + " bs=4M status=progress (pass "@ + decimal(pass) + "/"@
        + decimal(passes) + ")"@
}

pub open spec fn zero_fill_text(device: Seq<char>) -> Seq<char> {
    "dd if=/dev/zero of="@ + device + " bs=4M status=progress (final)"@
}

pub open spec fn discard_text(device: Seq<char>) -> Seq<char> {
    "blkdiscard "@ + device
}

pub open spec fn secure_erase_text(device: Seq<char>) -> Seq<char> {
    "hdparm -I "@ + device + " && hdparm --user-master u --security-set-pass p "@ + device
}

pub open spec fn sanitize_text(device: Seq<char>) -> Seq<char> {
    "nvme sanitize "@ + device + " --ses 1"@
}

pub open spec fn single(text: Seq<char>, intent: CommandIntent) -> Seq<CommandView> {
    seq![CommandView { text, ordinal: 1, of: 1, intent }]
}

/// The plan for `method` on `device`: for `dd`, `passes` random passes, each
/// naming its pass number and the total, then one zero fill; for every other
/// method, exactly one command.
pub open spec fn plan_of(method: WipeMethod, device: Seq<char>, passes: nat) -> Seq<CommandView> {
    match method {
        WipeMethod::Dd => Seq::new(
            passes + 1,
            |i: int|
                if i < passes {
                    CommandView {
                        text: random_pass_text(device, (i + 1) as nat, passes),
                        ordinal: (i + 1) as nat,
                        of: passes + 1,
                        intent: CommandIntent::RandomOverwrite,
                    }
                } else {
                    CommandView {
                        text: zero_fill_text(device),
                        ordinal: passes + 1,
                        of: passes + 1,
                        intent: CommandIntent::ZeroFill,
                    }
                },
        ),
        WipeMethod::Blkdiscard => single(discard_text(device), CommandIntent::Discard),
        WipeMethod::Hdparm => single(secure_erase_text(device), CommandIntent::SecureEraseNotice),
        WipeMethod::Nvme => single(sanitize_text(device), CommandIntent::Sanitize),
    }
}

pub open spec fn views_of(commands: Seq<PlannedCommand>) -> Seq<CommandView> {
    commands.map_values(|c: PlannedCommand| c@)
}

fn one_command(text: String, intent: CommandIntent) -> (r: Vec<PlannedCommand>)
    ensures
        views_of(r@) == single(text@, intent),
{
    let r = vec![PlannedCommand { text, ordinal: 1, of: 1, intent }];
    assert(views_of(r@) =~= single(text@, intent));
    r
}

/// The ordered commands for `method` on `device`. Deterministic: the plan
/// depends on the arguments alone.
pub fn plan(method: WipeMethod, device: &str, passes: u8) -> (r: Vec<PlannedCommand>)
    requires
        passes >= 1,
    ensures
        views_of(r@) == plan_of(method, device@, passes as nat),
{
    match method {
        WipeMethod::Dd => {
            let total: usize = passes as usize + 1;
            let of_passes = decimal_text(passes);
            let mut r: Vec<PlannedCommand> = Vec::new();
            let mut done: u8 = 0;
            while done < passes
                invariant
                    done <= passes,
                    total == passes + 1,
                    of_passes@ == decimal(passes as nat),
                    r@.len() == done,
                    forall|k: int| 0 <= k < r@.len() ==> #[trigger] r@[k]@
                        == plan_of(method, device@, passes as nat)[k],
                    method == WipeMethod::Dd,
                decreases passes - done,
            {
                let p: u8 = done + 1;
                let mut text = String::from_str("dd if=/dev/urandom of=");
                text.append(device);
                text.append(" bs=4M status=progress (pass ");
                let this_pass = decimal_text(p);
                text.append(this_pass.as_str());
                text.append("/");
                text.append(of_passes.as_str());
                text.append(")");
                r.push(PlannedCommand { text, ordinal: p as usize, of: total, intent: CommandIntent::RandomOverwrite });
                done = p;
            }
            let mut text = String::from_str("dd if=/dev/zero of=");
            text.append(device);
            text.append(" bs=4M status=progress (final)");
            r.push(PlannedCommand { text, ordinal: total, of: total, intent: CommandIntent::ZeroFill });
            assert(views_of(r@) =~= plan_of(method, device@, passes as nat));
            r
        },
        WipeMethod::Blkdiscard => {
            let mut text = String::from_str("blkdiscard ");
            text.append(device);
            one_command(text, CommandIntent::Discard)
        },
        WipeMethod::Hdparm => {
            let mut text = String::from_str("hdparm -I ");
            text.append(device);
            text.append(" && hdparm --user-master u --security-set-pass p ");
            text.append(device);
            one_command(text, CommandIntent::SecureEraseNotice)
        },
        WipeMethod::Nvme => {
            let mut text = String::from_str("nvme sanitize ");
            text.append(device);
            text.append(" --ses 1");
            one_command(text, CommandIntent::Sanitize)
        },
    }
}


/// `dd` plans one command per pass plus the zero fill; every other method
/// plans exactly one command.
pub proof fn plan_length(method: WipeMethod, device: Seq<char>, passes: nat)
    ensures
        plan_of(method, device, passes).len() == if method == WipeMethod::Dd {
            passes + 1
        } else {
            1
        },
{
}

/// Planning twice with the same arguments gives the same ordered commands.
pub proof fn plan_is_deterministic(
    method: WipeMethod,
    device: Seq<char>,
    passes: nat,
    first: Seq<PlannedCommand>,
    second: Seq<PlannedCommand>,
)
    requires
        views_of(first) == plan_of(method, device, passes),
        views_of(second) == plan_of(method, device, passes),
    ensures
        views_of(first) == views_of(second),
        first.len() == second.len(),
        forall|i: int|
            0 <= i < first.len() ==> (#[trigger] first[i])@ == second[i]@,
{
    assert(views_of(first).len() == first.len() && views_of(second).len() == second.len());
    assert forall|i: int| 0 <= i < first.len() implies (#[trigger] first[i])@ == second[i]@ by {
        assert(views_of(first)[i] == first[i]@ && views_of(second)[i] == second[i]@);
    }
}

} // verus!
