//! The process-execution abstraction: one lifecycle script becomes one shell
//! command line, run in an optionally overridden working directory. The
//! library builds and accounts for the command line; actually spawning the
//! shell and reaping the child is the caller's input/output work.

use vstd::prelude::*;

verus! {

/// The space-joined tail of a command line: one ` arg` for each argument.
pub open spec fn spec_args_tail(args: Seq<Seq<char>>) -> Seq<char>
    decreases args.len(),
{
    if args.len() == 0 {
        Seq::empty()
    } else {
        seq![' '] + args[0] + spec_args_tail(args.skip(1))
    }
}

/// The whole command line: the base command, then the arguments appended,
/// space-joined, exactly as they were given — no escaping is performed.
pub open spec fn spec_command_line(exe: Seq<char>, args: Seq<Seq<char>>) -> Seq<char> {
    exe + spec_args_tail(args)
}

/// Joining one more argument appends one more ` arg`.
proof fn lemma_args_tail_snoc(args: Seq<Seq<char>>, a: Seq<char>)
    ensures
        spec_args_tail(args.push(a)) == spec_args_tail(args) + (seq![' '] + a),
    decreases args.len(),
{
    if args.len() == 0 {
        assert(args.push(a) =~= seq![a]);
        assert(seq![a][0] == a);
        assert(seq![a].skip(1) =~= Seq::<Seq<char>>::empty());
        assert(seq![' '] + a + Seq::<char>::empty() =~= seq![' '] + a);
        assert(Seq::<char>::empty() + (seq![' '] + a) =~= seq![' '] + a);
        assert(spec_args_tail(seq![a]) =~= seq![' '] + a + spec_args_tail(Seq::empty()));
    } else {
        assert(args.push(a).skip(1) =~= args.skip(1).push(a));
        lemma_args_tail_snoc(args.skip(1), a);
        assert(args.push(a)[0] == args[0]);
        assert(seq![' '] + args[0] + (spec_args_tail(args.skip(1)) + (seq![' '] + a)) =~= (
        seq![' '] + args[0] + spec_args_tail(args.skip(1))) + (seq![' '] + a));
    }
}

/// One script invocation in the making: the base command, the extra
/// positional arguments, and the working directory to run in (empty means
/// the caller's own).
#[derive(Debug)]
pub struct Executor {
    pub executable: String,
    pub args: Vec<String>,
    pub current_dir: String,
}

impl Executor {
    /// A command with explicit positional arguments.
    pub fn new(executable: String, args: Vec<String>) -> (r: Self)
        ensures
            r.executable == executable,
            r.args == args,
            r.current_dir@ == Seq::<char>::empty(),
    {
        Executor { executable, args, current_dir: String::new() }
    }

    /// A whole shell command line taken verbatim: the script text is handed
    /// to the shell as it stands, with no splitting and no extra arguments.
    pub fn from_script(script: String) -> (r: Self)
        ensures
            r.executable == script,
            r.args@ == Seq::<String>::empty(),
            r.current_dir@ == Seq::<char>::empty(),
    {
        Executor { executable: script, args: Vec::new(), current_dir: String::new() }
    }

    /// Override the working directory the command will run in.
    pub fn current_dir(&mut self, dir: String)
        ensures
            final(self).current_dir == dir,
            final(self).executable == old(self).executable,
            final(self).args == old(self).args,
    {
        self.current_dir = dir;
    }

    /// The single command line handed to `<shell> -c`: the base command
    /// followed by the space-joined arguments. Callers pre-quote values that
    /// need quoting; nothing is escaped here.
    pub fn command_line(&self) -> (r: String)
        ensures
            r@ == spec_command_line(self.executable@, self.args.deep_view()),
    {
        let ghost all = self.args.deep_view();
        let mut out = self.executable.clone();
        let n = self.args.len();
        let mut i: usize = 0;
        while i < n
            invariant
                n == self.args@.len(),
                i <= n,
                all == self.args.deep_view(),
                out@ == spec_command_line(self.executable@, all.take(i as int)),
            decreases n - i,
        {
            proof {
                lemma_args_tail_snoc(all.take(i as int), all[i as int]);
                assert(all.take(i as int + 1) =~= all.take(i as int).push(all[i as int]));
            }
            out.push(' ');
            out.append(self.args[i].as_str());
            i = i + 1;
            proof {
                assert(out@ =~= spec_command_line(self.executable@, all.take(i as int)));
            }
        }
        proof {
            assert(all.take(n as int) =~= all);
        }
        out
    }
}

} // verus!
