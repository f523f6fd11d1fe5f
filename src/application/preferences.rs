use crate::log::LogLevel;
use vstd::prelude::*;

verus! {

pub type RGB = [u8; 3];

/// Colours of the interface.
#[derive(Debug, Clone, Copy)]
pub struct ThemeConfig {
    pub selected_color: RGB,
    pub unselected_color: RGB,
    pub help_text_color: RGB,
    pub help_key_color: RGB,
    pub help_desc_color: RGB,
}

/// User preferences, kept in the configuration file.
#[derive(Debug, Clone, Copy)]
pub struct Preference {
    pub theme_config: ThemeConfig,
    pub log_level: LogLevel,
}

impl ThemeConfig {
    pub open spec fn is_default(self) -> bool {
        &&& self.selected_color@ == seq![255u8, 165u8, 0u8]
        &&& self.unselected_color@ == seq![255u8, 236u8, 195u8]
        &&& self.help_text_color@ == seq![93u8, 169u8, 233u8]
        &&& self.help_key_color@ == seq![100u8, 149u8, 237u8]
        &&& self.help_desc_color@ == seq![255u8, 236u8, 195u8]
    }

    pub fn default() -> (r: Self)
        ensures
            r.is_default(),
    {
        let selected_color: RGB = [255, 165, 0];
        let unselected_color: RGB = [255, 236, 195];
        let help_text_color: RGB = [93, 169, 233];
        let help_key_color: RGB = [100, 149, 237];
        let help_desc_color: RGB = [255, 236, 195];
        proof {
            assert(selected_color@ =~= seq![255u8, 165u8, 0u8]);
            assert(unselected_color@ =~= seq![255u8, 236u8, 195u8]);
            assert(help_text_color@ =~= seq![93u8, 169u8, 233u8]);
            assert(help_key_color@ =~= seq![100u8, 149u8, 237u8]);
            assert(help_desc_color@ =~= seq![255u8, 236u8, 195u8]);
        }
        ThemeConfig {
            selected_color,
            unselected_color,
            help_text_color,
            help_key_color,
            help_desc_color,
        }
    }
}

impl Preference {
    pub fn default() -> (r: Self)
        ensures
            r.theme_config.is_default(),
            r.log_level == LogLevel::INFO,
    {
        Preference { theme_config: ThemeConfig::default(), log_level: LogLevel::default() }
    }
}

} // verus!
