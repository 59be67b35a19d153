use vstd::prelude::*;

use crate::text::{decimal, i32_to_decimal};

verus! {

/// Talks to one Android device through the `adb` command-line tool. Each operation gives the
/// argument list of the `adb` invocation that performs it.
pub struct AdbClient {
    serial: String,
}

/// The text of each argument.
pub open spec fn arg_texts(args: Seq<String>) -> Seq<Seq<char>> {
    args.map_values(|s: String| s@)
}

impl AdbClient {
    /// The device address (`adb -s` serial) this client targets.
    pub closed spec fn serial(&self) -> Seq<char> {
        self.serial@
    }

    /// A client for the device named by the `MUMU_ADB_TARGET` setting, given here as its value,
    /// or for MuMu's default adb address `127.0.0.1:7555` when it is unset.
    pub fn from_env_value(value: Option<String>) -> (r: Self)
        ensures
            r.serial() == (match value {
                Some(s) => s@,
                None => "127.0.0.1:7555"@,
            }),
    {
        let serial = match value {
            Some(s) => s,
            None => "127.0.0.1:7555".to_owned(),
        };
        AdbClient { serial }
    }

    /// Arguments of `adb connect <serial>`.
    pub fn connect_args(&self) -> (r: Vec<String>)
        ensures
            arg_texts(r@) == seq!["connect"@, self.serial()],
    {
        let mut args: Vec<String> = Vec::new();
        args.push("connect".to_owned());
        args.push(self.serial.clone());
        assert(arg_texts(args@) =~= seq!["connect"@, self.serial()]);
        args
    }

    /// Arguments of `adb -s <serial> shell input <args...>`.
    fn shell_input(&self, args: Vec<String>) -> (r: Vec<String>)
        ensures
            arg_texts(r@) == seq!["-s"@, self.serial(), "shell"@, "input"@] + arg_texts(args@),
    {
        let mut full: Vec<String> = Vec::new();
        full.push("-s".to_owned());
        full.push(self.serial.clone());
        full.push("shell".to_owned());
        full.push("input".to_owned());
        let mut i: usize = 0;
        while i < args.len()
            invariant
                i <= args@.len(),
                arg_texts(full@) == seq!["-s"@, self.serial(), "shell"@, "input"@] + arg_texts(
                    args@.subrange(0, i as int),
                ),
            decreases args@.len() - i,
        {
            let a = args[i].clone();
            let ghost before = full@;
            full.push(a);
            assert(a == args@[i as int]);
            assert(arg_texts(full@) =~= arg_texts(before).push(a@));
            i = i + 1;
            assert(args@.subrange(0, i as int) =~= args@.subrange(0, i - 1).push(args@[i - 1]));
            assert(arg_texts(args@.subrange(0, i as int)) =~= arg_texts(args@.subrange(0, i - 1)).push(
                args@[i - 1]@,
            ));
            assert(arg_texts(full@) =~= seq!["-s"@, self.serial(), "shell"@, "input"@] + arg_texts(
                args@.subrange(0, i as int),
            ));
        }
        assert(args@.subrange(0, i as int) =~= args@);
        full
    }

    /// Arguments that tap the screen at (`x`, `y`).
    pub fn tap(&self, x: i32, y: i32) -> (r: Vec<String>)
        ensures
            arg_texts(r@) == seq![
                "-s"@,
                self.serial(),
                "shell"@,
                "input"@,
                "tap"@,
                decimal(x as int),
                decimal(y as int),
            ],
    {
        let mut args: Vec<String> = Vec::new();
        args.push("tap".to_owned());
        args.push(i32_to_decimal(x));
        args.push(i32_to_decimal(y));
        let r = self.shell_input(args);
        assert(arg_texts(r@) =~= seq![
            "-s"@,
            self.serial(),
            "shell"@,
            "input"@,
            "tap"@,
            decimal(x as int),
            decimal(y as int),
        ]);
        r
    }

    /// Arguments that swipe from (`x1`, `y1`) to (`x2`, `y2`) in `duration_ms` milliseconds.
    pub fn swipe(&self, x1: i32, y1: i32, x2: i32, y2: i32, duration_ms: i32) -> (r: Vec<String>)
        ensures
            arg_texts(r@) == seq![
                "-s"@,
                self.serial(),
                "shell"@,
                "input"@,
                "swipe"@,
                decimal(x1 as int),
                decimal(y1 as int),
                decimal(x2 as int),
                decimal(y2 as int),
                decimal(duration_ms as int),
            ],
    {
        let mut args: Vec<String> = Vec::new();
        args.push("swipe".to_owned());
        args.push(i32_to_decimal(x1));
        args.push(i32_to_decimal(y1));
        args.push(i32_to_decimal(x2));
        args.push(i32_to_decimal(y2));
        args.push(i32_to_decimal(duration_ms));
        let r = self.shell_input(args);
        assert(arg_texts(r@) =~= seq![
            "-s"@,
            self.serial(),
            "shell"@,
            "input"@,
            "swipe"@,
            decimal(x1 as int),
            decimal(y1 as int),
            decimal(x2 as int),
            decimal(y2 as int),
            decimal(duration_ms as int),
        ]);
        r
    }

    /// Arguments that send the key event `key`.
    pub fn keyevent(&self, key: &str) -> (r: Vec<String>)
        ensures
            arg_texts(r@) == seq!["-s"@, self.serial(), "shell"@, "input"@, "keyevent"@, key@],
    {
        let mut args: Vec<String> = Vec::new();
        args.push("keyevent".to_owned());
        args.push(key.to_owned());
        let r = self.shell_input(args);
        assert(arg_texts(r@) =~= seq!["-s"@, self.serial(), "shell"@, "input"@, "keyevent"@, key@]);
        r
    }
}

} // verus!
