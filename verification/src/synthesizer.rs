//! Synthesis of the hypervisor invocation from the configuration and a sanitized tail.

use vstd::prelude::*;
use vstd::string::*;
use crate::sanitizer::{has_metacharacter, is_plain, lemma_concat_harmless, lemma_plain_harmless};
use crate::text::{decimal, decimal_string, texts};
use crate::tokens::{
    has_no_space, is_word, lemma_tokens_of_word, lemma_tokens_push_word, lemma_tokens_spaced,
    tokenize, tokens,
};

verus! {

/// Port of VNC display 0; display `n` listens on this port plus `n`.
pub const VNC_BASE_PORT: u16 = 5900;

/// The settings of one launch. They are loaded once and not changed afterwards.
#[derive(Clone, Debug, PartialEq, Eq)]
pub struct HypervisorConfig {
    /// Path or name of the hypervisor program.
    pub qemu_command: String,
    /// The free-form arguments, as the user wrote them.
    pub qemu_args: String,
    /// Memory size, as handed to `-m`.
    pub qemu_ram: String,
    /// Number of processors, as handed to `-smp`.
    pub qemu_cpu: String,
    /// Processor model, as handed to `-cpu`.
    pub cpu_model: String,
    /// Machine type, as handed to `-machine`.
    pub machine_type: String,
    /// Model of the network adapter.
    pub network_adapter: String,
    /// VGA device, as handed to `-vga`.
    pub vga: String,
    /// Port on which the VNC server is to listen.
    pub vnc_port: u16,
    /// Whether KVM is switched on.
    pub qemu_kvm_enabled: bool,
    /// Whether the hypervisor opens a window of its own.
    pub show_window: bool,
    /// Name of the virtual machine.
    pub name: String,
}

/// The mathematical content of a [`HypervisorConfig`].
pub struct ConfigView {
    pub qemu_command: Seq<char>,
    pub qemu_args: Seq<char>,
    pub qemu_ram: Seq<char>,
    pub qemu_cpu: Seq<char>,
    pub cpu_model: Seq<char>,
    pub machine_type: Seq<char>,
    pub network_adapter: Seq<char>,
    pub vga: Seq<char>,
    pub vnc_port: u16,
    pub qemu_kvm_enabled: bool,
    pub show_window: bool,
    pub name: Seq<char>,
}

impl View for HypervisorConfig {
    type V = ConfigView;

    open spec fn view(&self) -> ConfigView {
        ConfigView {
            qemu_command: self.qemu_command@,
            qemu_args: self.qemu_args@,
            qemu_ram: self.qemu_ram@,
            qemu_cpu: self.qemu_cpu@,
            cpu_model: self.cpu_model@,
            machine_type: self.machine_type@,
            network_adapter: self.network_adapter@,
            vga: self.vga@,
            vnc_port: self.vnc_port,
            qemu_kvm_enabled: self.qemu_kvm_enabled,
            show_window: self.show_window,
            name: self.name@,
        }
    }
}

/// Why a configuration cannot be turned into a command.
#[derive(Clone, Copy, PartialEq, Eq, Debug, Structural)]
pub enum ConfigError {
    /// The VNC port lies below the base port, so it names no display.
    VncPortBelowBase,
}

/// The number of the VNC display that listens on `vnc_port`.
pub open spec fn display_offset(vnc_port: u16) -> nat
    recommends
        vnc_port >= VNC_BASE_PORT,
{
    (vnc_port - VNC_BASE_PORT) as nat
}

/// The text that switches KVM on, or nothing.
pub open spec fn kvm_option(enabled: bool) -> Seq<char> {
    if enabled {
        "-enable-kvm"@
    } else {
        Seq::empty()
    }
}

/// The text that asks for a window, or nothing.
pub open spec fn display_option(show_window: bool) -> Seq<char> {
    if show_window {
        "-display gtk"@
    } else {
        Seq::empty()
    }
}

/// The invocation for `config` with the argument tail `tail`: the fields in their fixed
/// order, each behind its flag, then the two optional switches, the tail and the quoted
/// name. A switch that is off leaves its place empty.
pub open spec fn command_text(config: ConfigView, tail: Seq<char>) -> Seq<char> {
    config.qemu_command + " -vnc :"@ + decimal(display_offset(config.vnc_port)) + " -machine "@
        + config.machine_type + " -cpu "@ + config.cpu_model + " -m "@ + config.qemu_ram
        + " -smp "@ + config.qemu_cpu + " -net nic,model="@ + config.network_adapter + " -vga "@
        + config.vga + " "@ + kvm_option(config.qemu_kvm_enabled) + " "@ + display_option(
        config.show_window,
    ) + " "@ + tail + " -name \""@ + config.name + "\""@
}

/// The switch that turns KVM on, as arguments.
pub open spec fn kvm_arguments(enabled: bool) -> Seq<Seq<char>> {
    if enabled {
        seq!["-enable-kvm"@]
    } else {
        Seq::empty()
    }
}

/// The switch that asks for a window, as arguments.
pub open spec fn display_arguments(show_window: bool) -> Seq<Seq<char>> {
    if show_window {
        seq!["-display"@, "gtk"@]
    } else {
        Seq::empty()
    }
}

/// The invocation for `config` with the argument tail `tail` as a list of discrete
/// arguments, the program first: what [`command_text`] says, with nothing left for a shell
/// to split or to interpret. The tail contributes its tokens, and the name stands without
/// quotes.
pub open spec fn command_arguments(config: ConfigView, tail: Seq<char>) -> Seq<Seq<char>> {
    seq![
        config.qemu_command,
        "-vnc"@,
        ":"@ + decimal(display_offset(config.vnc_port)),
        "-machine"@,
        config.machine_type,
        "-cpu"@,
        config.cpu_model,
        "-m"@,
        config.qemu_ram,
        "-smp"@,
        config.qemu_cpu,
        "-net"@,
        "nic,model="@ + config.network_adapter,
        "-vga"@,
        config.vga,
    ] + kvm_arguments(config.qemu_kvm_enabled) + display_arguments(config.show_window) + tokens(
        tail,
    ) + seq!["-name"@, config.name]
}

/// Computes the number of the VNC display that listens on `vnc_port`. A port below the
/// base port is rejected.
pub fn vnc_display(vnc_port: u16) -> (r: Result<u16, ConfigError>)
    ensures
        vnc_port < VNC_BASE_PORT ==> r == Err::<u16, ConfigError>(ConfigError::VncPortBelowBase),
        vnc_port >= VNC_BASE_PORT ==> r == Ok::<u16, ConfigError>(
            display_offset(vnc_port) as u16,
        ),
{
    if vnc_port < VNC_BASE_PORT {
        Err(ConfigError::VncPortBelowBase)
    } else {
        Ok(vnc_port - VNC_BASE_PORT)
    }
}

/// Builds the invocation for a configuration whose VNC port names the display `display`.
pub(crate) fn build_command(config: &HypervisorConfig, display: u16, tail: &str) -> (command:
    String)
    requires
        config.vnc_port >= VNC_BASE_PORT,
        display == display_offset(config.vnc_port),
    ensures
        command@ == command_text(config@, tail@),
{
    let mut command = config.qemu_command.clone();
    command.append(" -vnc :");
    command.append(decimal_string(display as u32).as_str());
    command.append(" -machine ");
    command.append(config.machine_type.as_str());
    command.append(" -cpu ");
    command.append(config.cpu_model.as_str());
    command.append(" -m ");
    command.append(config.qemu_ram.as_str());
    command.append(" -smp ");
    command.append(config.qemu_cpu.as_str());
    command.append(" -net nic,model=");
    command.append(config.network_adapter.as_str());
    command.append(" -vga ");
    command.append(config.vga.as_str());
    command.append(" ");
    if config.qemu_kvm_enabled {
        command.append("-enable-kvm");
    }
    command.append(" ");
    if config.show_window {
        command.append("-display gtk");
    }
    command.append(" ");
    command.append(tail);
    command.append(" -name \"");
    command.append(config.name.as_str());
    command.append("\"");
    command
}

/// Builds the invocation for `config` with the argument tail `tail`. A configuration
/// whose VNC port lies below the base port is rejected, and nothing is built.
pub fn synthesize(config: &HypervisorConfig, tail: &str) -> (r: Result<String, ConfigError>)
    ensures
        config.vnc_port < VNC_BASE_PORT ==> r == Err::<String, ConfigError>(
            ConfigError::VncPortBelowBase,
        ),
        config.vnc_port >= VNC_BASE_PORT ==> r is Ok && r->Ok_0@ == command_text(config@, tail@),
{
    match vnc_display(config.vnc_port) {
        Ok(display) => Ok(build_command(config, display, tail)),
        Err(error) => Err(error),
    }
}

fn prefixed(prefix: &str, text: &str) -> (r: String)
    ensures
        r@ == prefix@ + text@,
{
    let mut r = String::from_str(prefix);
    r.append(text);
    r
}

/// Builds the argument list for a configuration whose VNC port names the display `display`.
pub(crate) fn build_arguments(config: &HypervisorConfig, display: u16, tail: &str) -> (arguments:
    Vec<String>)
    requires
        config.vnc_port >= VNC_BASE_PORT,
        display == display_offset(config.vnc_port),
    ensures
        texts(arguments@) == command_arguments(config@, tail@),
{
    let mut arguments: Vec<String> = Vec::new();
    arguments.push(config.qemu_command.clone());
    arguments.push(String::from_str("-vnc"));
    arguments.push(prefixed(":", decimal_string(display as u32).as_str()));
    arguments.push(String::from_str("-machine"));
    arguments.push(config.machine_type.clone());
    arguments.push(String::from_str("-cpu"));
    arguments.push(config.cpu_model.clone());
    arguments.push(String::from_str("-m"));
    arguments.push(config.qemu_ram.clone());
    arguments.push(String::from_str("-smp"));
    arguments.push(config.qemu_cpu.clone());
    arguments.push(String::from_str("-net"));
    arguments.push(prefixed("nic,model=", config.network_adapter.as_str()));
    arguments.push(String::from_str("-vga"));
    arguments.push(config.vga.clone());
    if config.qemu_kvm_enabled {
        arguments.push(String::from_str("-enable-kvm"));
    }
    if config.show_window {
        arguments.push(String::from_str("-display"));
        arguments.push(String::from_str("gtk"));
    }
    let ghost head = texts(arguments@);
    let mut words = tokenize(tail);
    let ghost middle = texts(words@);
    arguments.append(&mut words);
    assert(texts(arguments@) =~= head + middle);
    arguments.push(String::from_str("-name"));
    arguments.push(config.name.clone());
    assert(texts(arguments@) =~= command_arguments(config@, tail@));
    arguments
}

/// Builds the invocation for `config` with the argument tail `tail` as a list of discrete
/// arguments, for starting the program directly. A configuration whose VNC port lies below
/// the base port is rejected, and nothing is built.
pub fn synthesize_arguments(config: &HypervisorConfig, tail: &str) -> (r: Result<
    Vec<String>,
    ConfigError,
>)
    ensures
        config.vnc_port < VNC_BASE_PORT ==> r == Err::<Vec<String>, ConfigError>(
            ConfigError::VncPortBelowBase,
        ),
        config.vnc_port >= VNC_BASE_PORT ==> r is Ok && texts(r->Ok_0@) == command_arguments(
            config@,
            tail@,
        ),
{
    match vnc_display(config.vnc_port) {
        Ok(display) => Ok(build_arguments(config, display, tail)),
        Err(error) => Err(error),
    }
}

/// Synthesis is a function of its inputs: configurations with the same content and equal
/// tails give the same command, character for character, and the same arguments.
pub proof fn lemma_synthesis_deterministic(
    a: HypervisorConfig,
    b: HypervisorConfig,
    tail_a: Seq<char>,
    tail_b: Seq<char>,
)
    requires
        a@ == b@,
        tail_a == tail_b,
    ensures
        command_text(a@, tail_a) == command_text(b@, tail_b),
        command_arguments(a@, tail_a) == command_arguments(b@, tail_b),
{
}

/// Whether none of the fields that go into the command holds a shell metacharacter.
pub open spec fn fields_harmless(config: ConfigView) -> bool {
    &&& !has_metacharacter(config.qemu_command)
    &&& !has_metacharacter(config.machine_type)
    &&& !has_metacharacter(config.cpu_model)
    &&& !has_metacharacter(config.qemu_ram)
    &&& !has_metacharacter(config.qemu_cpu)
    &&& !has_metacharacter(config.network_adapter)
    &&& !has_metacharacter(config.vga)
    &&& !has_metacharacter(config.name)
}

proof fn lemma_decimal_plain(n: nat)
    ensures
        is_plain(decimal(n)),
        is_word(decimal(n)),
    decreases n,
{
    if n >= 10 {
        lemma_decimal_plain(n / 10);
    }
}

/// The fixed parts of a command are plain, and all but the two switches are not empty.
proof fn lemma_fixed_parts_plain()
    ensures
        is_plain(" -vnc :"@) && " -vnc :"@.len() > 0,
        is_plain(" -machine "@) && " -machine "@.len() > 0,
        is_plain(" -cpu "@) && " -cpu "@.len() > 0,
        is_plain(" -m "@) && " -m "@.len() > 0,
        is_plain(" -smp "@) && " -smp "@.len() > 0,
        is_plain(" -net nic,model="@) && " -net nic,model="@.len() > 0,
        is_plain(" -vga "@) && " -vga "@.len() > 0,
        is_plain(" "@) && " "@.len() > 0,
        is_plain(" -name \""@) && " -name \""@.len() > 0,
        is_plain("\""@) && "\""@.len() > 0,
        forall|enabled: bool| is_plain(#[trigger] kvm_option(enabled)),
        forall|show: bool| is_plain(#[trigger] display_option(show)),
{
    reveal_strlit(" -vnc :");
    reveal_strlit(" -machine ");
    reveal_strlit(" -cpu ");
    reveal_strlit(" -m ");
    reveal_strlit(" -smp ");
    reveal_strlit(" -net nic,model=");
    reveal_strlit(" -vga ");
    reveal_strlit(" ");
    reveal_strlit(" -name \"");
    reveal_strlit("\"");
    reveal_strlit("-enable-kvm");
    reveal_strlit("-display gtk");
    assert(is_plain("-enable-kvm"@));
    assert(is_plain("-display gtk"@));
    assert(is_plain(Seq::<char>::empty()));
}

/// Appending a plain part keeps a text free of metacharacters.
proof fn lemma_append_plain(text: Seq<char>, part: Seq<char>)
    requires
        !has_metacharacter(text),
        is_plain(part),
    ensures
        !has_metacharacter(text + part),
{
    lemma_plain_harmless(part);
    lemma_concat_harmless(text, part);
}

/// Appending a plain part that is not empty and then a field keeps a text free of
/// metacharacters.
proof fn lemma_append_field(text: Seq<char>, part: Seq<char>, field: Seq<char>)
    requires
        !has_metacharacter(text),
        is_plain(part),
        part.len() > 0,
        !has_metacharacter(field),
    ensures
        !has_metacharacter(text + part + field),
{
    lemma_append_plain(text, part);
    assert((text + part).last() == part.last());
    lemma_concat_harmless(text + part, field);
}

/// Where neither the fields nor the tail hold a shell metacharacter, the command holds
/// none: its fixed parts bring none in.
pub proof fn lemma_command_harmless(config: ConfigView, tail: Seq<char>)
    requires
        fields_harmless(config),
        !has_metacharacter(tail),
    ensures
        !has_metacharacter(command_text(config, tail)),
{
    lemma_fixed_parts_plain();
    lemma_decimal_plain(display_offset(config.vnc_port));
    let t1 = config.qemu_command + " -vnc :"@;
    lemma_append_plain(config.qemu_command, " -vnc :"@);
    let t2 = t1 + decimal(display_offset(config.vnc_port));
    lemma_append_plain(t1, decimal(display_offset(config.vnc_port)));
    let t3 = t2 + " -machine "@ + config.machine_type;
    lemma_append_field(t2, " -machine "@, config.machine_type);
    let t4 = t3 + " -cpu "@ + config.cpu_model;
    lemma_append_field(t3, " -cpu "@, config.cpu_model);
    let t5 = t4 + " -m "@ + config.qemu_ram;
    lemma_append_field(t4, " -m "@, config.qemu_ram);
    let t6 = t5 + " -smp "@ + config.qemu_cpu;
    lemma_append_field(t5, " -smp "@, config.qemu_cpu);
    let t7 = t6 + " -net nic,model="@ + config.network_adapter;
    lemma_append_field(t6, " -net nic,model="@, config.network_adapter);
    let t8 = t7 + " -vga "@ + config.vga;
    lemma_append_field(t7, " -vga "@, config.vga);
    let t9 = t8 + " "@;
    lemma_append_plain(t8, " "@);
    let t10 = t9 + kvm_option(config.qemu_kvm_enabled);
    lemma_append_plain(t9, kvm_option(config.qemu_kvm_enabled));
    let t11 = t10 + " "@;
    lemma_append_plain(t10, " "@);
    let t12 = t11 + display_option(config.show_window);
    lemma_append_plain(t11, display_option(config.show_window));
    let t13 = t12 + " "@ + tail;
    lemma_append_field(t12, " "@, tail);
    let t14 = t13 + " -name \""@ + config.name;
    lemma_append_field(t13, " -name \""@, config.name);
    lemma_append_plain(t14, "\""@);
    assert(command_text(config, tail) == t14 + "\""@);
}

/// Whether every field stands for one argument: none holds whitespace, and none is empty
/// but, at most, the adapter model and the name, which do not stand alone.
pub open spec fn fields_are_words(config: ConfigView) -> bool {
    &&& is_word(config.qemu_command)
    &&& is_word(config.machine_type)
    &&& is_word(config.cpu_model)
    &&& is_word(config.qemu_ram)
    &&& is_word(config.qemu_cpu)
    &&& has_no_space(config.network_adapter)
    &&& is_word(config.vga)
    &&& has_no_space(config.name)
}

/// `text` between double quotes.
pub open spec fn quoted(text: Seq<char>) -> Seq<char> {
    "\""@ + text + "\""@
}

/// A fixed part that holds a flag, behind a text, and a value behind it are two more
/// tokens: the flag, and the value with what the fixed part puts in front of it.
proof fn lemma_flag_then_value(
    text: Seq<char>,
    part: Seq<char>,
    flag: Seq<char>,
    glue: Seq<char>,
    value: Seq<char>,
)
    requires
        part == seq![' '] + flag + seq![' '] + glue,
        is_word(flag),
        is_word(glue + value),
    ensures
        tokens(text + part + value) == tokens(text).push(flag).push(glue + value),
{
    assert(text + part + value == text + seq![' '] + flag + seq![' '] + (glue + value));
    lemma_tokens_push_word(text, flag);
    lemma_tokens_push_word(text + seq![' '] + flag, glue + value);
}

proof fn lemma_vnc_part(text: Seq<char>, offset: Seq<char>)
    requires
        has_no_space(offset),
    ensures
        tokens(text + " -vnc :"@ + offset) == tokens(text).push("-vnc"@).push(":"@ + offset),
{
    reveal_strlit(" -vnc :");
    reveal_strlit("-vnc");
    reveal_strlit(":");
    assert(" -vnc :"@ =~= seq![' '] + "-vnc"@ + seq![' '] + ":"@);
    lemma_flag_then_value(text, " -vnc :"@, "-vnc"@, ":"@, offset);
}

proof fn lemma_machine_part(text: Seq<char>, value: Seq<char>)
    requires
        is_word(value),
    ensures
        tokens(text + " -machine "@ + value) == tokens(text).push("-machine"@).push(value),
{
    reveal_strlit(" -machine ");
    reveal_strlit("-machine");
    let none = Seq::<char>::empty();
    assert(" -machine "@ =~= seq![' '] + "-machine"@ + seq![' '] + none);
    assert(none + value == value);
    lemma_flag_then_value(text, " -machine "@, "-machine"@, none, value);
}

proof fn lemma_cpu_part(text: Seq<char>, value: Seq<char>)
    requires
        is_word(value),
    ensures
        tokens(text + " -cpu "@ + value) == tokens(text).push("-cpu"@).push(value),
{
    reveal_strlit(" -cpu ");
    reveal_strlit("-cpu");
    let none = Seq::<char>::empty();
    assert(" -cpu "@ =~= seq![' '] + "-cpu"@ + seq![' '] + none);
    assert(none + value == value);
    lemma_flag_then_value(text, " -cpu "@, "-cpu"@, none, value);
}

proof fn lemma_memory_part(text: Seq<char>, value: Seq<char>)
    requires
        is_word(value),
    ensures
        tokens(text + " -m "@ + value) == tokens(text).push("-m"@).push(value),
{
    reveal_strlit(" -m ");
    reveal_strlit("-m");
    let none = Seq::<char>::empty();
    assert(" -m "@ =~= seq![' '] + "-m"@ + seq![' '] + none);
    assert(none + value == value);
    lemma_flag_then_value(text, " -m "@, "-m"@, none, value);
}

proof fn lemma_smp_part(text: Seq<char>, value: Seq<char>)
    requires
        is_word(value),
    ensures
        tokens(text + " -smp "@ + value) == tokens(text).push("-smp"@).push(value),
{
    reveal_strlit(" -smp ");
    reveal_strlit("-smp");
    let none = Seq::<char>::empty();
    assert(" -smp "@ =~= seq![' '] + "-smp"@ + seq![' '] + none);
    assert(none + value == value);
    lemma_flag_then_value(text, " -smp "@, "-smp"@, none, value);
}

proof fn lemma_net_part(text: Seq<char>, value: Seq<char>)
    requires
        has_no_space(value),
    ensures
        tokens(text + " -net nic,model="@ + value) == tokens(text).push("-net"@).push(
            "nic,model="@ + value,
        ),
{
    reveal_strlit(" -net nic,model=");
    reveal_strlit("-net");
    reveal_strlit("nic,model=");
    assert(" -net nic,model="@ =~= seq![' '] + "-net"@ + seq![' '] + "nic,model="@);
    lemma_flag_then_value(text, " -net nic,model="@, "-net"@, "nic,model="@, value);
}

proof fn lemma_vga_part(text: Seq<char>, value: Seq<char>)
    requires
        is_word(value),
    ensures
        tokens(text + " -vga "@ + value) == tokens(text).push("-vga"@).push(value),
{
    reveal_strlit(" -vga ");
    reveal_strlit("-vga");
    let none = Seq::<char>::empty();
    assert(" -vga "@ =~= seq![' '] + "-vga"@ + seq![' '] + none);
    assert(none + value == value);
    lemma_flag_then_value(text, " -vga "@, "-vga"@, none, value);
}

proof fn lemma_kvm_part(text: Seq<char>, enabled: bool)
    ensures
        tokens(text + " "@ + kvm_option(enabled)) == tokens(text) + kvm_arguments(enabled),
{
    reveal_strlit(" ");
    reveal_strlit("-enable-kvm");
    assert(" "@ =~= seq![' ']);
    lemma_tokens_spaced(text, kvm_option(enabled));
    if enabled {
        lemma_tokens_of_word("-enable-kvm"@);
    }
}

proof fn lemma_display_part(text: Seq<char>, show_window: bool)
    ensures
        tokens(text + " "@ + display_option(show_window)) == tokens(text) + display_arguments(
            show_window,
        ),
{
    reveal_strlit(" ");
    reveal_strlit("-display gtk");
    reveal_strlit("-display");
    reveal_strlit("gtk");
    assert(" "@ =~= seq![' ']);
    lemma_tokens_spaced(text, display_option(show_window));
    if show_window {
        assert("-display gtk"@ =~= "-display"@ + seq![' '] + "gtk"@);
        lemma_tokens_of_word("-display"@);
        lemma_tokens_push_word("-display"@, "gtk"@);
    }
}

proof fn lemma_tail_part(text: Seq<char>, tail: Seq<char>)
    ensures
        tokens(text + " "@ + tail) == tokens(text) + tokens(tail),
{
    reveal_strlit(" ");
    assert(" "@ =~= seq![' ']);
    lemma_tokens_spaced(text, tail);
}

proof fn lemma_name_part(text: Seq<char>, name: Seq<char>)
    requires
        has_no_space(name),
    ensures
        tokens(text + " -name \""@ + name + "\""@) == tokens(text).push("-name"@).push(
            quoted(name),
        ),
{
    reveal_strlit(" -name \"");
    reveal_strlit("-name");
    reveal_strlit("\"");
    assert(" -name \""@ =~= seq![' '] + "-name"@ + seq![' '] + "\""@);
    assert(text + " -name \""@ + name + "\""@ == text + " -name \""@ + (name + "\""@));
    assert("\""@ + (name + "\""@) == quoted(name));
    lemma_flag_then_value(text, " -name \""@, "-name"@, "\""@, name + "\""@);
}

/// Split at whitespace, the command gives the argument list, but for the name, which
/// stands in quotes in the command. This holds where every field stands for one argument.
pub proof fn lemma_command_splits_into_arguments(config: ConfigView, tail: Seq<char>)
    requires
        fields_are_words(config),
    ensures
        tokens(command_text(config, tail)) == command_arguments(config, tail).drop_last().push(
            quoted(config.name),
        ),
{
    let offset = decimal(display_offset(config.vnc_port));
    lemma_decimal_plain(display_offset(config.vnc_port));
    lemma_tokens_of_word(config.qemu_command);
    let t1 = config.qemu_command + " -vnc :"@ + offset;
    lemma_vnc_part(config.qemu_command, offset);
    let t2 = t1 + " -machine "@ + config.machine_type;
    lemma_machine_part(t1, config.machine_type);
    let t3 = t2 + " -cpu "@ + config.cpu_model;
    lemma_cpu_part(t2, config.cpu_model);
    let t4 = t3 + " -m "@ + config.qemu_ram;
    lemma_memory_part(t3, config.qemu_ram);
    let t5 = t4 + " -smp "@ + config.qemu_cpu;
    lemma_smp_part(t4, config.qemu_cpu);
    let t6 = t5 + " -net nic,model="@ + config.network_adapter;
    lemma_net_part(t5, config.network_adapter);
    let t7 = t6 + " -vga "@ + config.vga;
    lemma_vga_part(t6, config.vga);
    let t8 = t7 + " "@ + kvm_option(config.qemu_kvm_enabled);
    lemma_kvm_part(t7, config.qemu_kvm_enabled);
    let t9 = t8 + " "@ + display_option(config.show_window);
    lemma_display_part(t8, config.show_window);
    let t10 = t9 + " "@ + tail;
    lemma_tail_part(t9, tail);
    let t11 = t10 + " -name \""@ + config.name + "\""@;
    lemma_name_part(t10, config.name);
    assert(command_text(config, tail) == t11);
    assert(tokens(t11) =~= command_arguments(config, tail).drop_last().push(
        quoted(config.name),
    ));
}

} // verus!
