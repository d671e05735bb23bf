//! The platforms `harper-ls` is released for, and the tags its release
//! assets carry for them.

use vstd::prelude::*;

verus! {

/// The operating system family of the host.
#[derive(Clone, Copy, Debug, PartialEq, Eq, Structural)]
pub enum Os {
    Mac,
    Linux,
    Windows,
}

/// The processor architecture of the host.
#[derive(Clone, Copy, Debug, PartialEq, Eq, Structural)]
pub enum Architecture {
    Aarch64,
    /// 32-bit x86, for which no `harper-ls` is released.
    X86,
    X8664,
}

/// The archive format a release asset is packed in.
#[derive(Clone, Copy, Debug, PartialEq, Eq, Structural)]
pub enum ArchiveKind {
    GzipTar,
    Zip,
}

impl Os {
    /// The vendor and system part of the target triple.
    pub open spec fn spec_target_tag(self) -> Seq<char> {
        match self {
            Os::Mac => "apple-darwin"@,
            Os::Linux => "unknown-linux-gnu"@,
            Os::Windows => "pc-windows-msvc"@,
        }
    }

    /// The file extension of the release archive.
    pub open spec fn spec_archive_extension(self) -> Seq<char> {
        match self {
            Os::Mac => "tar.gz"@,
            Os::Linux => "tar.gz"@,
            Os::Windows => "zip"@,
        }
    }

    /// The format of the release archive: zip on Windows, a gzipped tar
    /// archive elsewhere.
    pub open spec fn spec_archive_kind(self) -> ArchiveKind {
        match self {
            Os::Windows => ArchiveKind::Zip,
            _ => ArchiveKind::GzipTar,
        }
    }

    /// What follows the name of an executable file: `.exe` on Windows,
    /// nothing elsewhere.
    pub open spec fn spec_executable_suffix(self) -> Seq<char> {
        match self {
            Os::Windows => ".exe"@,
            _ => Seq::<char>::empty(),
        }
    }

    pub fn target_tag(self) -> (tag: &'static str)
        ensures
            tag@ == self.spec_target_tag(),
    {
        match self {
            Os::Mac => "apple-darwin",
            Os::Linux => "unknown-linux-gnu",
            Os::Windows => "pc-windows-msvc",
        }
    }

    pub fn archive_extension(self) -> (extension: &'static str)
        ensures
            extension@ == self.spec_archive_extension(),
    {
        match self {
            Os::Mac => "tar.gz",
            Os::Linux => "tar.gz",
            Os::Windows => "zip",
        }
    }

    pub fn archive_kind(self) -> (kind: ArchiveKind)
        ensures
            kind == self.spec_archive_kind(),
    {
        match self {
            Os::Windows => ArchiveKind::Zip,
            _ => ArchiveKind::GzipTar,
        }
    }

    pub fn executable_suffix(self) -> (suffix: &'static str)
        ensures
            suffix@ == self.spec_executable_suffix(),
    {
        match self {
            Os::Windows => ".exe",
            _ => {
                proof {
                    reveal_strlit("");
                }
                assert(""@ =~= Seq::<char>::empty());
                ""
            },
        }
    }
}

/// An architecture for which `harper-ls` is released.
#[derive(Clone, Copy, Debug, PartialEq, Eq, Structural)]
pub enum Cpu {
    Aarch64,
    X8664,
}

impl Architecture {
    /// The architecture as one with a release; 32-bit x86 has none.
    pub open spec fn spec_cpu(self) -> Option<Cpu> {
        match self {
            Architecture::Aarch64 => Some(Cpu::Aarch64),
            Architecture::X8664 => Some(Cpu::X8664),
            Architecture::X86 => None,
        }
    }

    pub fn cpu(self) -> (cpu: Option<Cpu>)
        ensures
            cpu == self.spec_cpu(),
            cpu is None <==> self == Architecture::X86,
    {
        match self {
            Architecture::Aarch64 => Some(Cpu::Aarch64),
            Architecture::X8664 => Some(Cpu::X8664),
            Architecture::X86 => None,
        }
    }
}

impl Cpu {
    /// The architecture part of the target triple.
    pub open spec fn spec_target_tag(self) -> Seq<char> {
        match self {
            Cpu::Aarch64 => "aarch64"@,
            Cpu::X8664 => "x86_64"@,
        }
    }

    pub fn target_tag(self) -> (tag: &'static str)
        ensures
            tag@ == self.spec_target_tag(),
    {
        match self {
            Cpu::Aarch64 => "aarch64",
            Cpu::X8664 => "x86_64",
        }
    }
}

} // verus!
