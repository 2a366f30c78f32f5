//! Al-Marjaa: the runtime support library of an Arabic programming language:
//! diagnostics and error reports, execution guards, module and package
//! bookkeeping, a small type system and command-line parsing.

pub mod assoc;
pub mod bytecode;
pub mod cli;
pub mod cranelift;
pub mod error;
pub mod modules;
pub mod style;
pub mod text;

use vstd::prelude::*;

verus! {

/// الإصدار الحالي للغة
pub const VERSION: &'static str = "3.4.1";

/// The text that describes the language and this build.
pub open spec fn info_text() -> Seq<char> {
    "\n    ╔═══════════════════════════════════════════════════════════════╗\n    ║         لغة المرجع - Al-Marjaa Language (Core)               ║\n    ║         لغة برمجة عربية أساسية                                ║\n    ╠═══════════════════════════════════════════════════════════════╣\n    ║  الإصدار: 3.4.1                                              ║\n    ║  API: Core (مستقر) + Libraries (توسعات)                       ║\n    ║  Bytecode VM: ✅ مفعّل                                        ║\n    ║  JIT Compiler: ✅ مفعّل (5 مستويات)                           ║\n    ║  Parallel GC: ✅ مفعّل                                        ║\n    ║  Standard Library: ✅ Regex, Crypto                          ║\n    ║  المؤلف: رضوان دالي حمدوني                                   ║\n    ║  GitHub: github.com/radhwendalyhamdouni/Al-Marjaa-Core       ║\n    ║  Libraries: github.com/radhwendalyhamdouni/Al-Marjaa-Libraries║\n    ╚═══════════════════════════════════════════════════════════════╝\n"@
}

/// معلومات عن اللغة
pub fn info() -> (r: &'static str)
    ensures
        r@ == info_text(),
{
    "\n    ╔═══════════════════════════════════════════════════════════════╗\n    ║         لغة المرجع - Al-Marjaa Language (Core)               ║\n    ║         لغة برمجة عربية أساسية                                ║\n    ╠═══════════════════════════════════════════════════════════════╣\n    ║  الإصدار: 3.4.1                                              ║\n    ║  API: Core (مستقر) + Libraries (توسعات)                       ║\n    ║  Bytecode VM: ✅ مفعّل                                        ║\n    ║  JIT Compiler: ✅ مفعّل (5 مستويات)                           ║\n    ║  Parallel GC: ✅ مفعّل                                        ║\n    ║  Standard Library: ✅ Regex, Crypto                          ║\n    ║  المؤلف: رضوان دالي حمدوني                                   ║\n    ║  GitHub: github.com/radhwendalyhamdouni/Al-Marjaa-Core       ║\n    ║  Libraries: github.com/radhwendalyhamdouni/Al-Marjaa-Libraries║\n    ╚═══════════════════════════════════════════════════════════════╝\n"
}

} // verus!
