//! The shell functions that talk to the daemon: a PowerShell module and a
//! POSIX shell script, each naming the port file and the executable.

use vstd::prelude::*;

use crate::paths::{child_spec, FsPath, PathModel};
use crate::text::push_str;

verus! {

/// PowerShell module, up to the port file's path.
pub const POWERSHELL_SHIM_HEAD: &'static str = r#"# PowerShell shim for dekharen-cli-daemon
function rush {
    param([Parameter(ValueFromRemainingArguments = $true)][String[]]$args)
    $portPath = ""#;

/// PowerShell module, between the port file's path and the executable's path.
pub const POWERSHELL_SHIM_MID: &'static str = r#""
    if (-not (Test-Path $portPath)) {
        Write-Host "Port file not found. Attempting to start daemon..."
        start-cli-daemon
        Start-Sleep -Seconds 1
    }

    try {
        $port = Get-Content $portPath
        $tcpClient = New-Object System.Net.Sockets.TcpClient("127.0.0.1", [int]$port)
        $stream = $tcpClient.GetStream()
        $writer = New-Object System.IO.StreamWriter $stream
        $writer.AutoFlush = $true
        $writer.WriteLine(($args -join ' '))
        $reader = New-Object System.IO.StreamReader $stream
        while (($line = $reader.ReadLine()) -ne $null) { Write-Output $line }
    } catch {
        Write-Error "Failed to connect to the daemon. Is it running?"
    }
}

function dash {
    param([string]$name)
    $result = rush move $name
    if (-not $result) {
        Write-Error "dash failed. Could the daemon be down?"
        return
    }
    Set-Location $result
}

function start-cli-daemon {
    param([int]$port = 5339)
    Start-Process -FilePath ""#;

/// PowerShell module, after the executable's path.
pub const POWERSHELL_SHIM_TAIL: &'static str = r#"" -ArgumentList "serve $port" -NoNewWindow
}

Export-ModuleMember -Function rush, dash, start-cli-daemon
"#;

/// Shell script, up to the port file's path.
pub const SHELL_SHIM_HEAD: &'static str = r#"#!/bin/sh
# Shell shim for dekharen-cli-daemon
PORT_FILE=""#;

/// Shell script, between the port file's path and the executable's path.
pub const SHELL_SHIM_MID: &'static str = r#""

rush() {
    if [ ! -f "$PORT_FILE" ]; then
        echo "Port file not found. Attempting to start daemon..."
        start-cli-daemon
        sleep 1
    fi

    PORT=$(cat "$PORT_FILE")
    if ! exec 3<>/dev/tcp/127.0.0.1/$PORT; then
        echo "rush: failed to connect to daemon. Is it running?"
        return 1
    fi
    printf "%s\n" "$*" >&3
    cat <&3
}

dash() {
    target=$(rush move "$@")
    if [ -z "$target" ]; then
        echo "dash: failed to get path. Could the daemon be down?"
        return 1
    fi
    cd "$target"
}

start-cli-daemon() {
    PORT_ARG="$1"
    if [ -z "$PORT_ARG" ]; then
        PORT_ARG=5339
    fi
    ""#;

/// Shell script, after the executable's path.
pub const SHELL_SHIM_TAIL: &'static str = r#"" serve "$PORT_ARG" &
}
"#;

/// Text of the PowerShell module (`rush`, `dash`, `start-cli-daemon`) for a
/// port file and an executable.
pub open spec fn powershell_shim_spec(port_path: Seq<char>, exe_path: Seq<char>) -> Seq<char> {
    POWERSHELL_SHIM_HEAD@ + port_path + POWERSHELL_SHIM_MID@ + exe_path + POWERSHELL_SHIM_TAIL@
}

/// Text of the shell script (`rush`, `dash`, `start-cli-daemon`) for a port
/// file and an executable.
pub open spec fn shell_shim_spec(port_path: Seq<char>, exe_path: Seq<char>) -> Seq<char> {
    SHELL_SHIM_HEAD@ + port_path + SHELL_SHIM_MID@ + exe_path + SHELL_SHIM_TAIL@
}

/// Renders the PowerShell module.
pub fn powershell_shim(port_path: &str, exe_path: &str) -> (r: String)
    ensures
        r@ == powershell_shim_spec(port_path@, exe_path@),
{
    let mut s = String::new();
    push_str(&mut s, POWERSHELL_SHIM_HEAD);
    push_str(&mut s, port_path);
    push_str(&mut s, POWERSHELL_SHIM_MID);
    push_str(&mut s, exe_path);
    push_str(&mut s, POWERSHELL_SHIM_TAIL);
    s
}

/// Renders the shell script.
pub fn shell_shim(port_path: &str, exe_path: &str) -> (r: String)
    ensures
        r@ == shell_shim_spec(port_path@, exe_path@),
{
    let mut s = String::new();
    push_str(&mut s, SHELL_SHIM_HEAD);
    push_str(&mut s, port_path);
    push_str(&mut s, SHELL_SHIM_MID);
    push_str(&mut s, exe_path);
    push_str(&mut s, SHELL_SHIM_TAIL);
    s
}

/// Directory of the generated tab-completion scripts, inside the
/// configuration directory.
pub open spec fn completions_dir_spec(config_dir: PathModel) -> PathModel {
    child_spec(child_spec(config_dir, "dekharen-cli-daemon"@), "completions"@)
}

/// Where the tab-completion scripts are written.
pub fn completions_dir(config_dir: &FsPath) -> (r: FsPath)
    ensures
        r@ == completions_dir_spec(config_dir@),
{
    config_dir.child("dekharen-cli-daemon").child("completions")
}

/// The lines that tell how to enable tab-completion, given the displayed
/// paths of the bash script, of the completions directory and of the
/// PowerShell script.
pub open spec fn completion_instruction_lines(
    bash_file: Seq<char>,
    dir: Seq<char>,
    ps_file: Seq<char>,
) -> Seq<Seq<char>> {
    seq![
        "\n\u{1f527} To enable tab-completion, add this to your configuration :\n"@,
        "  Bash:\n    source "@ + bash_file,
        "\n  Zsh:\n    fpath=("@ + dir + " $fpath)\n    autoload -Uz compinit && compinit"@,
        "\n  PowerShell:\n    Import-Module "@ + ps_file,
    ]
}

/// Renders the tab-completion instructions, one string per message.
pub fn completion_instructions(bash_file: &str, dir: &str, ps_file: &str) -> (r: Vec<String>)
    ensures
        r.deep_view() == completion_instruction_lines(bash_file@, dir@, ps_file@),
{
    let first = "\n\u{1f527} To enable tab-completion, add this to your configuration :\n".to_string();
    let mut bash = "  Bash:\n    source ".to_string();
    push_str(&mut bash, bash_file);
    let mut zsh = "\n  Zsh:\n    fpath=(".to_string();
    push_str(&mut zsh, dir);
    push_str(&mut zsh, " $fpath)\n    autoload -Uz compinit && compinit");
    let mut ps = "\n  PowerShell:\n    Import-Module ".to_string();
    push_str(&mut ps, ps_file);
    let r = vec![first, bash, zsh, ps];
    assert(r.deep_view() =~= completion_instruction_lines(bash_file@, dir@, ps_file@));
    r
}

} // verus!
