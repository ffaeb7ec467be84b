//! The texts the engine composes: decimal numbers, mentions, avatar
//! addresses and the consent prompt.

use vstd::prelude::*;
use vstd::string::StringExecFns;
use crate::shims::user_mention;

verus! {

/// The character for a decimal digit.
pub open spec fn digit_char(d: nat) -> char {
    if d == 0 {
        '0'
    } else if d == 1 {
        '1'
    } else if d == 2 {
        '2'
    } else if d == 3 {
        '3'
    } else if d == 4 {
        '4'
    } else if d == 5 {
        '5'
    } else if d == 6 {
        '6'
    } else if d == 7 {
        '7'
    } else if d == 8 {
        '8'
    } else {
        '9'
    }
}

/// The decimal notation of a number, without sign or leading zeros.
pub open spec fn decimal_text(n: nat) -> Seq<char>
    decreases n,
{
    if n < 10 {
        seq![digit_char(n)]
    } else {
        decimal_text(n / 10).push(digit_char(n % 10))
    }
}

/// The text of one decimal digit.
fn digit_str(d: u64) -> (text: &'static str)
    requires
        d < 10,
    ensures
        text@ == seq![digit_char(d as nat)],
{
    proof {
        reveal_strlit("0");
        reveal_strlit("1");
        reveal_strlit("2");
        reveal_strlit("3");
        reveal_strlit("4");
        reveal_strlit("5");
        reveal_strlit("6");
        reveal_strlit("7");
        reveal_strlit("8");
        reveal_strlit("9");
    }
    let text = if d == 0 {
        "0"
    } else if d == 1 {
        "1"
    } else if d == 2 {
        "2"
    } else if d == 3 {
        "3"
    } else if d == 4 {
        "4"
    } else if d == 5 {
        "5"
    } else if d == 6 {
        "6"
    } else if d == 7 {
        "7"
    } else if d == 8 {
        "8"
    } else {
        "9"
    };
    assert(text@ =~= seq![digit_char(d as nat)]);
    text
}

/// Writes a number in decimal notation.
pub fn decimal_string(n: u64) -> (text: String)
    ensures
        text@ == decimal_text(n as nat),
    decreases n,
{
    if n < 10 {
        String::from_str(digit_str(n))
    } else {
        let mut text = decimal_string(n / 10);
        text.append(digit_str(n % 10));
        assert(text@ =~= decimal_text(n as nat));
        text
    }
}

/// The markup that makes the platform render a user's name: `<@ID>`.
pub open spec fn mention_text(id: u64) -> Seq<char> {
    seq!['<', '@'] + decimal_text(id as nat) + seq!['>']
}

/// The markup that mentions a user, for every id.
pub fn mention(id: u64) -> (text: String)
    ensures
        text@ == mention_text(id),
{
    if id != 0 {
        user_mention(id)
    } else {
        proof {
            reveal_strlit("<@0>");
            assert("<@0>"@ =~= mention_text(0)) by {
                reveal_with_fuel(decimal_text, 2);
            }
        }
        String::from_str("<@0>")
    }
}

/// The first line of the consent prompt.
pub open spec fn prompt_header() -> Seq<char> {
    "**some of the messages aren't yours so i'll mention the people that need to agree first**\n"@
}

/// The consent prompt for the given authors: the header, then one line per
/// author with their mention.
pub open spec fn prompt_text(authors: Seq<u64>) -> Seq<char>
    decreases authors.len(),
{
    if authors.len() == 0 {
        prompt_header()
    } else {
        prompt_text(authors.drop_last()) + seq!['\n'] + mention_text(authors.last())
    }
}

/// Composes the prompt that names the authors who still have to agree.
pub fn get_agree_message_content(agree_waiting: &Vec<u64>) -> (content: String)
    ensures
        content@ == prompt_text(agree_waiting@),
{
    let mut content = String::from_str(
        "**some of the messages aren't yours so i'll mention the people that need to agree first**\n",
    );
    let mut i: usize = 0;
    assert(agree_waiting@.take(0).len() == 0);
    while i < agree_waiting.len()
        invariant
            i <= agree_waiting.len(),
            content@ == prompt_text(agree_waiting@.take(i as int)),
        decreases agree_waiting.len() - i,
    {
        let piece = mention(agree_waiting[i]);
        proof {
            reveal_strlit("\n");
            let next = agree_waiting@.take(i + 1);
            assert(next.drop_last() =~= agree_waiting@.take(i as int));
            assert(next.last() == agree_waiting@[i as int]);
            assert("\n"@ =~= seq!['\n']);
        }
        content.append("\n");
        content.append(piece.as_str());
        i += 1;
    }
    assert(agree_waiting@.take(agree_waiting.len() as int) =~= agree_waiting@);
    content
}

/// The address of the avatar a user set for one community.
pub open spec fn member_avatar_url(guild_id: u64, user_id: u64, hash: Seq<char>) -> Seq<char> {
    "https://cdn.discordapp.com/guilds/"@ + decimal_text(guild_id as nat) + "/users/"@
        + decimal_text(user_id as nat) + "/avatar/"@ + hash + ".png"@
}

/// The address of a user's account avatar.
pub open spec fn user_avatar_url(user_id: u64, hash: Seq<char>) -> Seq<char> {
    "https://cdn.discordapp.com/avatars/"@ + decimal_text(user_id as nat) + "/"@ + hash + ".png"@
}

/// Composes the address of the avatar a user set for one community.
pub fn format_member_avatar_url(guild_id: u64, user_id: u64, hash: &String) -> (url: String)
    ensures
        url@ == member_avatar_url(guild_id, user_id, hash@),
{
    let guild = decimal_string(guild_id);
    let user = decimal_string(user_id);
    let mut url = String::from_str("https://cdn.discordapp.com/guilds/");
    url.append(guild.as_str());
    url.append("/users/");
    url.append(user.as_str());
    url.append("/avatar/");
    url.append(hash.as_str());
    url.append(".png");
    url
}

/// Composes the address of a user's account avatar.
pub fn format_user_avatar_url(user_id: u64, hash: &String) -> (url: String)
    ensures
        url@ == user_avatar_url(user_id, hash@),
{
    let user = decimal_string(user_id);
    let mut url = String::from_str("https://cdn.discordapp.com/avatars/");
    url.append(user.as_str());
    url.append("/");
    url.append(hash.as_str());
    url.append(".png");
    url
}

} // verus!
