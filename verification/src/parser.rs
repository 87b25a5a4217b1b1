//! The command parser: a table of registered commands and the function that
//! turns a plain-text message into a command with its bound arguments.

use crate::error::ParseError;
use crate::types::{ArgTuple, Argument, Message};
use crate::utils::{pairs_view, strings_view, tokenize, tokens};
use vstd::hash_map::StringHashMap;
use vstd::prelude::*;

verus! {

/// What a list of argument descriptors says: each one's name and whether it is
/// required, in registration order.
pub open spec fn descriptors(args: Seq<Box<dyn Argument>>) -> Seq<(Seq<char>, bool)> {
    Seq::new(args.len(), |i: int| (args[i].spec_name(), args[i].spec_required()))
}

/// The bindings that the first `n` descriptors of `args` give with the flag
/// `required`: descriptor `i` is bound to token `i` of the message, and the
/// order of the descriptors is kept.
pub open spec fn bindings(
    args: Seq<(Seq<char>, bool)>,
    toks: Seq<Seq<char>>,
    required: bool,
    n: int,
) -> Seq<(Seq<char>, Seq<char>)>
    decreases n,
{
    if n <= 0 {
        Seq::empty()
    } else {
        let rest = bindings(args, toks, required, n - 1);
        if args[n - 1].1 == required {
            rest.push((args[n - 1].0, toks[n - 1]))
        } else {
            rest
        }
    }
}

/// A parsed command as a mathematical value.
pub struct CommandView<H> {
    pub command: Seq<char>,
    pub required_arguments: Seq<(Seq<char>, Seq<char>)>,
    pub optional_arguments: Seq<(Seq<char>, Seq<char>)>,
    pub callback: H,
}

/// What parsing `text` against `table` gives. A table maps a command keyword
/// to its handler and its argument descriptors.
///
/// Token 0 is the addressing mention and token 1 the keyword. The command
/// needs as many tokens behind the keyword as it has descriptors; descriptor
/// `i` is then bound to token `i`, counted from the start of the message.
pub open spec fn parse_outcome<H>(
    table: Map<Seq<char>, (H, Seq<(Seq<char>, bool)>)>,
    text: Seq<char>,
) -> Result<CommandView<H>, ParseError> {
    let toks = tokens(text);
    if toks.len() < 2 {
        Err(ParseError::NoCommand)
    } else if !table.contains_key(toks[1]) {
        Err(ParseError::UnknownCommand)
    } else {
        let (callback, args) = table[toks[1]];
        if toks.len() - 2 < args.len() {
            Err(ParseError::MissingArguments)
        } else {
            Ok(
                CommandView {
                    command: toks[1],
                    required_arguments: bindings(args, toks, true, args.len() as int),
                    optional_arguments: bindings(args, toks, false, args.len() as int),
                    callback,
                },
            )
        }
    }
}

/// The first `n` descriptors are split between the required and the optional
/// bindings: the two lists hold `n` entries together.
pub proof fn lemma_bindings_partition(args: Seq<(Seq<char>, bool)>, toks: Seq<Seq<char>>, n: int)
    requires
        0 <= n,
    ensures
        bindings(args, toks, true, n).len() + bindings(args, toks, false, n).len() == n,
    decreases n,
{
    if n > 0 {
        lemma_bindings_partition(args, toks, n - 1);
    }
}

/// Each binding comes from a descriptor with the list's flag, and the
/// descriptors of a list follow each other in registration order: `k` maps
/// entry `j` of the list to the index of its descriptor.
pub open spec fn is_ordered_selection(
    args: Seq<(Seq<char>, bool)>,
    toks: Seq<Seq<char>>,
    required: bool,
    n: int,
    list: Seq<(Seq<char>, Seq<char>)>,
    k: Seq<int>,
) -> bool {
    &&& k.len() == list.len()
    &&& forall|j: int|
        0 <= j < list.len() ==> 0 <= #[trigger] k[j] < n && args[k[j]].1 == required && list[j] == (
            args[k[j]].0,
            toks[k[j]],
        )
    &&& forall|i: int, j: int| 0 <= i < j < list.len() ==> #[trigger] k[i] < #[trigger] k[j]
}

/// The indices of the first `n` descriptors that carry the flag `required`,
/// in increasing order.
pub open spec fn selected(args: Seq<(Seq<char>, bool)>, required: bool, n: int) -> Seq<int>
    decreases n,
{
    if n <= 0 {
        Seq::empty()
    } else if args[n - 1].1 == required {
        selected(args, required, n - 1).push(n - 1)
    } else {
        selected(args, required, n - 1)
    }
}

/// The bindings with one flag are the descriptors with that flag, in
/// registration order, each with the token of its own position.
pub proof fn lemma_bindings_keep_order(
    args: Seq<(Seq<char>, bool)>,
    toks: Seq<Seq<char>>,
    required: bool,
    n: int,
)
    requires
        0 <= n,
    ensures
        is_ordered_selection(
            args,
            toks,
            required,
            n,
            bindings(args, toks, required, n),
            selected(args, required, n),
        ),
    decreases n,
{
    if n > 0 {
        lemma_bindings_keep_order(args, toks, required, n - 1);
    }
}

/// A message with fewer than two tokens, the empty message among them, names
/// no command, whatever is registered.
pub proof fn law_short_message_has_no_command<H>(
    table: Map<Seq<char>, (H, Seq<(Seq<char>, bool)>)>,
    text: Seq<char>,
)
    ensures
        tokens(text).len() < 2 ==> parse_outcome(table, text) == Err::<CommandView<H>, ParseError>(
            ParseError::NoCommand,
        ),
        tokens(Seq::<char>::empty()).len() == 0,
{
}

/// A message whose second token is no registered keyword is an unknown
/// command, whatever else is registered.
pub proof fn law_unregistered_keyword_is_unknown<H>(
    table: Map<Seq<char>, (H, Seq<(Seq<char>, bool)>)>,
    text: Seq<char>,
)
    requires
        tokens(text).len() >= 2,
        !table.contains_key(tokens(text)[1]),
    ensures
        parse_outcome(table, text) == Err::<CommandView<H>, ParseError>(
            ParseError::UnknownCommand,
        ),
{
}

/// For a registered keyword with `n` descriptors: with fewer than `n` tokens
/// behind the keyword the arguments are missing; otherwise the command is
/// parsed, its required and optional lists hold `n` entries together, each
/// list holds the descriptors with its flag, and both keep the registration
/// order.
pub proof fn law_registered_keyword_binds_every_descriptor<H>(
    table: Map<Seq<char>, (H, Seq<(Seq<char>, bool)>)>,
    text: Seq<char>,
)
    requires
        tokens(text).len() >= 2,
        table.contains_key(tokens(text)[1]),
    ensures
        ({
            let toks = tokens(text);
            let args = table[toks[1]].1;
            let n = args.len() as int;
            &&& toks.len() - 2 < n ==> parse_outcome(table, text) == Err::<
                CommandView<H>,
                ParseError,
            >(ParseError::MissingArguments)
            &&& toks.len() - 2 >= n ==> {
                &&& parse_outcome(table, text) matches Ok(c)
                &&& c.command == toks[1]
                &&& c.callback == table[toks[1]].0
                &&& c.required_arguments.len() + c.optional_arguments.len() == n
                &&& is_ordered_selection(
                    args,
                    toks,
                    true,
                    n,
                    c.required_arguments,
                    selected(args, true, n),
                )
                &&& is_ordered_selection(
                    args,
                    toks,
                    false,
                    n,
                    c.optional_arguments,
                    selected(args, false, n),
                )
            }
        }),
{
    let toks = tokens(text);
    let args = table[toks[1]].1;
    let n = args.len() as int;
    lemma_bindings_partition(args, toks, n);
    lemma_bindings_keep_order(args, toks, true, n);
    lemma_bindings_keep_order(args, toks, false, n);
}

/// A command as parsed from one message: its keyword, its bound arguments and
/// the handler registered for it.
pub struct Command<'a, H> {
    pub command: String,
    pub required_arguments: ArgTuple,
    pub optional_arguments: ArgTuple,
    pub callback: &'a H,
}

impl<'a, H> View for Command<'a, H> {
    type V = CommandView<H>;

    open spec fn view(&self) -> CommandView<H> {
        CommandView {
            command: self.command@,
            required_arguments: pairs_view(self.required_arguments@),
            optional_arguments: pairs_view(self.optional_arguments@),
            callback: *self.callback,
        }
    }
}

/// The result of a parse as a mathematical value.
pub open spec fn parsed_view<H>(r: Result<Command<'_, H>, ParseError>) -> Result<
    CommandView<H>,
    ParseError,
> {
    match r {
        Ok(c) => Ok(c@),
        Err(e) => Err(e),
    }
}

/// The table of registered commands. `H` is the type of a command's handler.
#[verifier::reject_recursive_types(H)]
pub struct Parser<H> {
    commands: StringHashMap<(H, Vec<Box<dyn Argument>>)>,
}

impl<H> Parser<H> {
    /// The registered commands: each keyword with its handler and what its
    /// argument descriptors say.
    pub closed spec fn table(&self) -> Map<Seq<char>, (H, Seq<(Seq<char>, bool)>)> {
        Map::new(
            |k: Seq<char>| self.commands@.contains_key(k),
            |k: Seq<char>| (self.commands@[k].0, descriptors(self.commands@[k].1@)),
        )
    }

    /// A parser with no command.
    pub fn new() -> (r: Self)
        ensures
            r.table() == Map::<Seq<char>, (H, Seq<(Seq<char>, bool)>)>::empty(),
    {
        let r = Parser { commands: StringHashMap::new() };
        assert(r.table() =~= Map::<Seq<char>, (H, Seq<(Seq<char>, bool)>)>::empty());
        r
    }

    /// Registers `command` with its argument descriptors and its handler. A
    /// command registered before under the same keyword is replaced.
    pub fn add_command(&mut self, command: &str, args: Vec<Box<dyn Argument>>, callback: H)
        ensures
            final(self).table() == old(self).table().insert(
                command@,
                (callback, descriptors(args@)),
            ),
    {
        self.commands.insert(command.to_owned(), (callback, args));
        assert(self.table() =~= old(self).table().insert(
            command@,
            (callback, descriptors(args@)),
        ));
    }

    /// Parses a plain-text message into a command.
    pub fn parse(&self, plain_string_message: String) -> (r: Result<Command<'_, H>, ParseError>)
        ensures
            parsed_view(r) == parse_outcome(self.table(), plain_string_message@),
    {
        let parts = tokenize(plain_string_message.as_str());
        let num_parts = parts.len();
        if num_parts <= 1 {
            return Err(ParseError::NoCommand);
        }
        let ghost toks = strings_view(parts@);
        assert(toks[1] == parts[1]@);
        let command_structure = match self.commands.get(parts[1].as_str()) {
            None => {
                return Err(ParseError::UnknownCommand);
            },
            Some(entry) => entry,
        };
        let arguments_len = command_structure.1.len();
        if num_parts - 2 < arguments_len {
            return Err(ParseError::MissingArguments);
        }
        let ghost args = descriptors(command_structure.1@);
        let mut required_arguments: Vec<(String, String)> = Vec::new();
        let mut optional_arguments: Vec<(String, String)> = Vec::new();
        let mut index: usize = 0;
        while index < arguments_len
            invariant
                index <= arguments_len,
                arguments_len == command_structure.1.len(),
                arguments_len + 2 <= parts.len(),
                toks == strings_view(parts@),
                args == descriptors(command_structure.1@),
                pairs_view(required_arguments@) == bindings(args, toks, true, index as int),
                pairs_view(optional_arguments@) == bindings(args, toks, false, index as int),
            decreases arguments_len - index,
        {
            let name = command_structure.1[index].name().to_owned();
            let value = parts[index].clone();
            let ghost before_required = required_arguments@;
            let ghost before_optional = optional_arguments@;
            assert(args[index as int] == (
                command_structure.1[index as int].spec_name(),
                command_structure.1[index as int].spec_required(),
            ));
            assert(toks[index as int] == parts[index as int]@);
            if command_structure.1[index].is_required() {
                required_arguments.push((name, value));
                assert(pairs_view(required_arguments@) == pairs_view(before_required).push(
                    (args[index as int].0, toks[index as int]),
                ));
            } else {
                optional_arguments.push((name, value));
                assert(pairs_view(optional_arguments@) == pairs_view(before_optional).push(
                    (args[index as int].0, toks[index as int]),
                ));
            }
            index = index + 1;
        }
        Ok(
            Command {
                command: parts[1].clone(),
                required_arguments,
                optional_arguments,
                callback: &command_structure.0,
            },
        )
    }

    /// Parses the plain text of a message that the cloud delivered. A message
    /// without text names no command.
    pub fn parse_message(&self, message: &Message) -> (r: Result<Command<'_, H>, ParseError>)
        ensures
            parsed_view(r) == match message.text {
                Some(text) => parse_outcome(self.table(), text@),
                None => Err(ParseError::NoCommand),
            },
    {
        match &message.text {
            Some(text) => self.parse(text.clone()),
            None => Err(ParseError::NoCommand),
        }
    }
}

} // verus!
